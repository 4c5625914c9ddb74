//! A point-to-point UDP message exchange engine: the decisions of its
//! receiver lifecycle, the outcome of a send, the text of each log entry,
//! the commands of its interactive loop, and the configuration text of an
//! optional forwarding tunnel.

pub mod clock;
pub mod command;
pub mod engine;
pub mod entry;
pub mod frp;
pub mod text;

pub use clock::{format_timestamp, LocalTime};
pub use command::{Command, FrpCommand, InputHandler};
pub use engine::{
    finish_send, on_receive, plan_send, receive_step, EngineError, LoopAction, RecvOutcome,
    SendFailure, StopAction, UdpMessageHandler,
};
pub use entry::{log_line, payload_text};
pub use frp::{default_frp_config, FrpConfig, FrpStatus};
