//! A local message bus between one IRC session and the plugin processes
//! attached to it.
//!
//! Inbound protocol messages are classified into [`Event`]s, every event is
//! framed as one text payload for the broadcast channel, payloads coming back
//! over the aggregation channel are decoded into [`Command`]s, and commands
//! are turned into actions for the session. The sockets, the child
//! processes and the session itself live with the caller; this crate holds
//! the values and the rules, each with a contract checked by Verus.

pub mod command;
pub mod config;
pub mod decode;
pub mod dispatch;
pub mod documents;
pub mod endpoint;
pub mod error;
pub mod event;
pub mod hello;
pub mod json;
pub mod limits;
pub mod message;
pub mod registry;
pub mod rendezvous;
pub mod text;
pub mod wire;

pub use command::{to_protocol_action, ActionView, Command, CommandView, ProtocolAction};
pub use config::{mk_config, Config, HOME_CHANNEL, JOIN_DELAY_SECS};
pub use dispatch::{handle_msg, listen_step, recv_command, recv_event, Forward, ListenStep};
pub use endpoint::{EndPointView, IrcEndPoint};
pub use error::{DecodeFault, Error, ErrorView};
pub use event::{Event, EventView};
pub use json::{JsonMember, JsonValue};
pub use message::{IrcMessage, IrcTag, MessageView, TagView};
pub use registry::{PluginConn, PluginSet};
pub use rendezvous::{ipc_path, BENDER_TO_PLUGIN, PLUGIN_TO_BENDER, SOCKET_MODE};
pub use wire::frame_variant;
