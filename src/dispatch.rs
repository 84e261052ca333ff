use vstd::prelude::*;

use crate::message::ClipboardFile;
use crate::registry::{has_conn, ChannelView, ClipboardChannels};

verus! {

/// Why a message was not queued.
#[derive(Debug, Clone, Copy, PartialEq, Eq)]
pub enum SendDataError {
    /// No channel has the connection id.
    ConnNotFound,
    /// The channel's receiving end has been closed or dropped.
    ChannelClosed,
}

/// Whether a broadcast message reached the queue of one connection.
#[derive(Debug, Clone, Copy, PartialEq, Eq)]
pub struct Delivery {
    pub conn_id: i32,
    pub delivered: bool,
}

/// One delivery report per channel, in the table's order, with the channels'
/// connection ids.
pub open spec fn reports_cover(d: Seq<Delivery>, s: Seq<ChannelView>) -> bool {
    &&& d.len() == s.len()
    &&& forall|i: int| 0 <= i < s.len() ==> #[trigger] d[i].conn_id == s[i].conn_id
}

/// Queues `data` for connection `conn_id`. Fails with `ConnNotFound` exactly
/// when no channel has that id, and then queues nothing.
pub fn send_data_to_channel(channels: &ClipboardChannels, conn_id: i32, data: ClipboardFile) -> (r:
    Result<(), SendDataError>)
    ensures
        (r == Err::<(), SendDataError>(SendDataError::ConnNotFound)) <==> !has_conn(
            channels@,
            conn_id as int,
        ),
{
    match channels.find_by_conn(conn_id) {
        None => Err(SendDataError::ConnNotFound),
        Some(i) => if channels.send_at(i, data) {
            Ok(())
        } else {
            Err(SendDataError::ChannelClosed)
        },
    }
}

/// Queues a copy of `data` for every channel. A channel that refuses it does
/// not stop the others; the result tells, channel by channel, which took it.
pub fn send_data_to_all(channels: &ClipboardChannels, data: ClipboardFile) -> (r: Vec<Delivery>)
    ensures
        reports_cover(r@, channels@),
{
    let mut reports: Vec<Delivery> = Vec::new();
    let mut i: usize = 0;
    let n: usize = channels.len();
    while i < n
        invariant
            i <= n == channels@.len(),
            reports_cover(reports@, channels@.take(i as int)),
        decreases n - i,
    {
        let delivered = channels.send_at(i, data.clone());
        reports.push(Delivery { conn_id: channels.conn_id_at(i), delivered });
        i = i + 1;
    }
    assert(channels@.take(i as int) =~= channels@);
    reports
}

/// Sends `data` to connection `conn_id`. Connection 0 stands for every
/// channel where the table supports broadcast: then each channel gets a copy
/// and the result reports on each. Otherwise the one channel with that id
/// gets it, and the result reports it delivered.
pub fn send_data(channels: &ClipboardChannels, conn_id: i32, data: ClipboardFile) -> (r: Result<
    Vec<Delivery>,
    SendDataError,
>)
    ensures
        conn_id == 0 && channels.broadcast_supported() ==> (r matches Ok(d) && reports_cover(
            d@,
            channels@,
        )),
        !(conn_id == 0 && channels.broadcast_supported()) ==> {
            &&& (r == Err::<Vec<Delivery>, SendDataError>(SendDataError::ConnNotFound))
                <==> !has_conn(channels@, conn_id as int)
            &&& r matches Ok(d) ==> d@ == seq![Delivery { conn_id: conn_id, delivered: true }]
        },
{
    if conn_id == 0 && channels.is_broadcast_supported() {
        Ok(send_data_to_all(channels, data))
    } else {
        match send_data_to_channel(channels, conn_id, data) {
            Ok(()) => {
                let d = vec![Delivery { conn_id, delivered: true }];
                assert(d@ =~= seq![Delivery { conn_id: conn_id, delivered: true }]);
                Ok(d)
            },
            Err(e) => Err(e),
        }
    }
}

} // verus!
