//! What travels from an oscillator node to its renderer, and the channel it
//! travels through: a zero-capacity channel of `crossbeam_channel`, on which a
//! send completes only when the renderer polls.

use vstd::prelude::*;

verus! {

/// Capacity of the channel between a node and its renderer. With no slot,
/// a sender waits until the renderer takes the message or goes away.
pub const CHANNEL_CAPACITY: usize = 0;

/// The sending end of a `crossbeam_channel` channel. Nothing inside it is
/// visible to the proofs.
#[verifier::external_type_specification]
#[verifier::external_body]
#[verifier::reject_recursive_types(T)]
pub struct ExSender<T>(crossbeam_channel::Sender<T>);

/// The receiving end of a `crossbeam_channel` channel. Nothing inside it is
/// visible to the proofs.
#[verifier::external_type_specification]
#[verifier::external_body]
#[verifier::reject_recursive_types(T)]
pub struct ExReceiver<T>(crossbeam_channel::Receiver<T>);

/// `crossbeam_channel::SendError`, which hands back a message that could not
/// be sent because the other end is gone.
#[verifier::external_type_specification]
#[verifier::external_body]
#[verifier::reject_recursive_types(T)]
pub struct ExSendError<T>(crossbeam_channel::SendError<T>);

/// `crossbeam_channel::TryRecvError`: the channel was empty, or empty and
/// disconnected.
#[verifier::external_type_specification]
#[verifier::external_body]
pub struct ExTryRecvError(crossbeam_channel::TryRecvError);

/// `crossbeam_channel::bounded` makes the two ends of a new channel. Nothing
/// is claimed of them.
pub assume_specification<T>[ crossbeam_channel::bounded::<T> ](cap: usize) -> (ends: (
    crossbeam_channel::Sender<T>,
    crossbeam_channel::Receiver<T>,
));

/// `crossbeam_channel::Sender::send` waits until the message is taken or the
/// channel is disconnected. Whether it succeeds depends on the other thread,
/// so nothing is claimed of the result.
pub assume_specification<T>[ crossbeam_channel::Sender::<T>::send ](
    sender: &crossbeam_channel::Sender<T>,
    msg: T,
) -> (sent: Result<(), crossbeam_channel::SendError<T>>);

/// `crossbeam_channel::Receiver::try_recv` takes a message if one is on offer
/// and returns at once either way. Whether one is on offer depends on the
/// other thread, so nothing is claimed of the result.
pub assume_specification<T>[ crossbeam_channel::Receiver::<T>::try_recv ](
    receiver: &crossbeam_channel::Receiver<T>,
) -> (polled: Result<T, crossbeam_channel::TryRecvError>);

/// Messages from an oscillator node to its renderer. Sample values are
/// binary32 bit patterns.
#[derive(Debug, Clone)]
pub enum OscMsg {
    /// A new custom waveform.
    PeriodicWaveMsg {
        /// The frequency at which the wavetable was built.
        computed_freq: u32,
        /// One period of the waveform.
        wavetable: Vec<u32>,
        /// The reciprocal of the peak of the wavetable.
        norm_factor: u32,
        /// Whether normalization is switched off; the renderer then keeps
        /// no gain.
        disable_normalization: bool,
    },
}

/// Puts together the message that announces a new custom waveform: the
/// frequency the wavetable was built at, the wavetable, the reciprocal of its
/// peak and the normalization switch, each as given.
pub fn periodic_wave_update(
    computed_freq: u32,
    wavetable: Vec<u32>,
    norm_factor: u32,
    disable_normalization: bool,
) -> (msg: OscMsg)
    ensures
        msg == (OscMsg::PeriodicWaveMsg {
            computed_freq,
            wavetable,
            norm_factor,
            disable_normalization,
        }),
{
    OscMsg::PeriodicWaveMsg { computed_freq, wavetable, norm_factor, disable_normalization }
}

} // verus!
