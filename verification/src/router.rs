//! The channel router: a pure map from a message's variant to its delivery
//! class and from the class to the index of the sub-channel that carries
//! it, refusing a class whose channel the configuration disabled.

use crate::codec::{MessageView, NetworkMessage};
use crate::config::{ConfigView, NetworkConfig};
use vstd::prelude::*;

verus! {

/// A category of transmission guarantee, mapped to one sub-channel of the
/// transport.
#[derive(Clone, Copy, Debug, PartialEq, Eq, Structural)]
pub enum DeliveryClass {
    ReliableOrdered,
    UnreliableUnordered,
}

/// The delivery class of each message variant: game-state updates go
/// best-effort, chat and every control message go reliable-ordered.
pub open spec fn class_of_spec(v: MessageView) -> DeliveryClass {
    match v {
        MessageView::GameState(_) => DeliveryClass::UnreliableUnordered,
        _ => DeliveryClass::ReliableOrdered,
    }
}

/// The delivery class of a message.
pub fn class_of(m: &NetworkMessage) -> (c: DeliveryClass)
    ensures
        c == class_of_spec(m@),
{
    match m {
        NetworkMessage::GameState(_) => DeliveryClass::UnreliableUnordered,
        _ => DeliveryClass::ReliableOrdered,
    }
}

/// True when the configuration opens a channel for the class.
pub open spec fn class_enabled(c: DeliveryClass, cfg: ConfigView) -> bool {
    match c {
        DeliveryClass::ReliableOrdered => cfg.enable_reliable_channel,
        DeliveryClass::UnreliableUnordered => cfg.enable_unreliable_channel,
    }
}

/// The index of the class's sub-channel.  Channels are opened in a fixed
/// order, the reliable one first when enabled, so the best-effort channel
/// sits at index one exactly when both are open.
pub open spec fn channel_index_spec(c: DeliveryClass, cfg: ConfigView) -> usize
    recommends
        class_enabled(c, cfg),
{
    match c {
        DeliveryClass::ReliableOrdered => 0,
        DeliveryClass::UnreliableUnordered => if cfg.enable_reliable_channel {
            1
        } else {
            0
        },
    }
}

/// The configuration disabled the channel that the message's delivery
/// class needs; the caller must surface this rather than downgrade the
/// class.
#[derive(Clone, Copy, Debug, PartialEq, Eq, Structural)]
pub struct ChannelUnavailable;

/// Maps a message to the index of the sub-channel that must carry it, and
/// fails exactly when that class's channel is disabled.
pub fn route(m: &NetworkMessage, config: &NetworkConfig) -> (r: Result<usize, ChannelUnavailable>)
    ensures
        class_enabled(class_of_spec(m@), config@) ==> r == Ok::<usize, ChannelUnavailable>(
            channel_index_spec(class_of_spec(m@), config@),
        ),
        !class_enabled(class_of_spec(m@), config@) ==> r == Err::<usize, ChannelUnavailable>(
            ChannelUnavailable,
        ),
{
    match class_of(m) {
        DeliveryClass::ReliableOrdered => {
            if config.enable_reliable_channel {
                Ok(0)
            } else {
                Err(ChannelUnavailable)
            }
        },
        DeliveryClass::UnreliableUnordered => {
            if config.enable_unreliable_channel {
                if config.enable_reliable_channel {
                    Ok(1)
                } else {
                    Ok(0)
                }
            } else {
                Err(ChannelUnavailable)
            }
        },
    }
}

/// Law: a chat message always carries the reliable-ordered class and a
/// game-state message the best-effort class; with both channels enabled
/// they route to indices zero and one respectively.
pub proof fn lemma_routing_classes(v: MessageView, cfg: ConfigView)
    ensures
        v is Chat ==> class_of_spec(v) == DeliveryClass::ReliableOrdered,
        v is GameState ==> class_of_spec(v) == DeliveryClass::UnreliableUnordered,
        cfg.enable_reliable_channel && cfg.enable_unreliable_channel ==> {
            &&& v is Chat ==> channel_index_spec(class_of_spec(v), cfg) == 0
            &&& v is GameState ==> channel_index_spec(class_of_spec(v), cfg) == 1
        },
{
}

} // verus!
