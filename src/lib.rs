//! Remote-clipboard redirection core: the clipboard protocol's messages, the
//! errors a clipboard backend reports, and the registry that routes messages
//! to one inbound queue per peer session.

pub mod channel;
pub mod conn_id;
pub mod dispatch;
pub mod message;
pub mod registry;
pub mod service;

pub use channel::ClipboardReceiver;
pub use conn_id::{get_conn_id, ConnIdAllocator};
pub use dispatch::{send_data, send_data_to_all, send_data_to_channel, Delivery, SendDataError};
pub use message::ClipboardFile;
pub use registry::{
    get_client_conn_id, get_rx_cliprdr_client, get_rx_cliprdr_server, ChannelError, ChannelView,
    ClipboardChannels,
};
pub use service::{CliprdrError, CliprdrServiceContext};
