//! A messaging client over ZeroMQ: socket parameters, a session over one
//! socket, and the grammar of the interactive chat prompt.

pub mod chat;
pub mod command;
pub mod socket;
pub mod text;
pub mod transport;
pub mod validation;

pub use chat::{execute_chat_command, Chat, ChatError, ChatOutcome};
pub use command::{parse_chat_command, tokenize, ChatCommand};
pub use socket::{create_socket, AssociationType, SocketParameters, SocketType};
pub use validation::validate_socket;
