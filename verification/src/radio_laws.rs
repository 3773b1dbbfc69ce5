//! Laws of the radio driver, proved about its state machine.

use crate::radio::RadioStatus;
use crate::radio_model::{
    arg_length, arg_low16, command_action, command_step, copy_count, delivered, receive_upcall,
    run, send_done_step, send_done_upcall, step, transmit_result_step, CommandActionView,
    DriverView, Event, Slot,
};
use crate::returncode::ReturnCode;
use vstd::prelude::*;

verus! {

/// A transmit argument built from a destination in bits 0 to 15, a length
/// in bits 16 to 23 and anything above decodes to that destination and that
/// length.
pub proof fn lemma_transmit_arg_fields(dest: u16, len: u8, high: nat)
    requires
        dest + len * 0x1_0000 + high * 0x100_0000 <= usize::MAX,
    ensures
        arg_low16((dest + len * 0x1_0000 + high * 0x100_0000) as usize) == dest,
        arg_length((dest + len * 0x1_0000 + high * 0x100_0000) as usize) == len,
{
    let upper: int = len + high * 0x100;
    let x: int = dest + upper * 0x1_0000;
    assert(x == dest + len * 0x1_0000 + high * 0x100_0000);
    vstd::arithmetic::div_mod::lemma_fundamental_div_mod_converse(x, 0x1_0000, upper, dest as int);
    vstd::arithmetic::div_mod::lemma_fundamental_div_mod_converse(
        upper,
        0x100,
        high as int,
        len as int,
    );
}

/// Granting buffers and registering callbacks touches neither the busy flag
/// nor the transmission buffer nor the pending frame.
pub proof fn lemma_registrations_keep_transmit_state<C>(s: DriverView<C>, calls: Seq<Event<C>>)
    requires
        forall|k: int| 0 <= k < calls.len() ==> (#[trigger] calls[k]).is_registration(),
    ensures
        run(s, calls).busy == s.busy,
        run(s, calls).kernel_tx == s.kernel_tx,
        run(s, calls).pending_tx == s.pending_tx,
    decreases calls.len(),
{
    if calls.len() > 0 {
        lemma_registrations_keep_transmit_state(s, calls.drop_last());
    }
}

/// After any sequence of grants and registrations, a slot holds what the
/// last call that wrote it handed over.
pub proof fn lemma_last_registration_wins<C>(s: DriverView<C>, calls: Seq<Event<C>>, i: int)
    requires
        forall|k: int| 0 <= k < calls.len() ==> (#[trigger] calls[k]).is_registration(),
        0 <= i < calls.len(),
        calls[i].target() is Some,
        forall|j: int| i < j < calls.len() ==> (#[trigger] calls[j]).target() != calls[i].target(),
    ensures
        run(s, calls).record().slot(calls[i].target()->0) == calls[i].registered(),
    decreases calls.len(),
{
    if i < calls.len() - 1 {
        let before = calls.drop_last();
        assert(before[i] == calls[i]);
        assert forall|j: int| i < j < before.len() implies (#[trigger] before[j]).target()
            != before[i].target() by {
            assert(before[j] == calls[j]);
        }
        lemma_last_registration_wins(s, before, i);
        assert(calls.last() == calls[calls.len() - 1]);
    }
}

/// After any sequence of grants and registrations, a slot that no call
/// wrote holds what it held before.
pub proof fn lemma_untargeted_slot_unchanged<C>(s: DriverView<C>, calls: Seq<Event<C>>, slot: Slot)
    requires
        forall|k: int| 0 <= k < calls.len() ==> (#[trigger] calls[k]).is_registration(),
        forall|j: int| 0 <= j < calls.len() ==> (#[trigger] calls[j]).target() != Some(slot),
    ensures
        run(s, calls).record().slot(slot) == s.record().slot(slot),
    decreases calls.len(),
{
    if calls.len() > 0 {
        let before = calls.drop_last();
        assert forall|j: int| 0 <= j < before.len() implies (#[trigger] before[j]).target()
            != Some(slot) by {
            assert(before[j] == calls[j]);
        }
        lemma_untargeted_slot_unchanged(s, before, slot);
        assert(calls.last() == calls[calls.len() - 1]);
    }
}

/// A callback stays registered until the process registers another: no
/// call but a registration changes either callback, so every completion and
/// every reception in between schedules the same callback.
pub proof fn lemma_callbacks_stay_registered<C>(
    s: DriverView<C>,
    events: Seq<Event<C>>,
    result: ReturnCode,
)
    requires
        forall|k: int| 0 <= k < events.len() ==> !((#[trigger] events[k]) is Subscribe),
    ensures
        run(s, events).record().tx_callback == s.record().tx_callback,
        run(s, events).record().rx_callback == s.record().rx_callback,
        send_done_upcall(run(s, events), result) == send_done_upcall(s, result),
        run(s, events).record().app_read is Some && s.record().app_read is Some ==> receive_upcall(
            run(s, events),
            result,
        ) == receive_upcall(s, result),
    decreases events.len(),
{
    if events.len() > 0 {
        let before = events.drop_last();
        assert forall|k: int| 0 <= k < before.len() implies !((#[trigger] before[k]) is Subscribe) by {
            assert(before[k] == events[k]);
        }
        lemma_callbacks_stay_registered(s, before, result);
        assert(events.last() == events[events.len() - 1]);
    }
}

/// The busy flag is set only by the radio's acceptance of a pending frame
/// and cleared only by the completion of a transmission.
pub proof fn lemma_busy_changes<C>(s: DriverView<C>, e: Event<C>)
    ensures
        !s.busy && step(s, e).busy ==> s.pending_tx is Some && (e matches Event::TransmitResult {
            status,
        } && status == ReturnCode::SUCCESS),
        s.busy && !step(s, e).busy ==> e is SendDone,
{
}

/// A transmit request is answered with `EBUSY` exactly while the driver is
/// busy.
pub proof fn lemma_transmit_busy_iff<C>(s: DriverView<C>, arg1: usize, radio: RadioStatus)
    ensures
        command_action(s, 5, arg1, radio) == CommandActionView::Reply(ReturnCode::EBUSY)
            <==> s.busy,
{
}

/// From the radio's acceptance of the pending frame on, whatever is called
/// except the completion, the driver is busy and answers every transmit
/// request with `EBUSY`.
pub proof fn lemma_busy_until_completion<C>(
    s: DriverView<C>,
    events: Seq<Event<C>>,
    arg1: usize,
    radio: RadioStatus,
)
    requires
        s.pending_tx is Some,
        forall|k: int| 0 <= k < events.len() ==> !((#[trigger] events[k]) is SendDone),
    ensures
        run(transmit_result_step(s, ReturnCode::SUCCESS), events).busy,
        command_action(run(transmit_result_step(s, ReturnCode::SUCCESS), events), 5, arg1, radio)
            == CommandActionView::Reply(ReturnCode::EBUSY),
    decreases events.len(),
{
    if events.len() > 0 {
        let before = events.drop_last();
        assert forall|k: int| 0 <= k < before.len() implies !((#[trigger] before[k]) is SendDone) by {
            assert(before[k] == events[k]);
        }
        lemma_busy_until_completion(s, before, arg1, radio);
        assert(events.last() == events[events.len() - 1]);
    }
}

/// Right after the completion of a transmission the driver is idle and has
/// the returned buffer at its disposal: a transmit request is answered
/// neither with `EBUSY` nor with `ENOMEM`.
pub proof fn lemma_ready_after_completion<C>(
    s: DriverView<C>,
    buf: Seq<u8>,
    arg1: usize,
    radio: RadioStatus,
)
    ensures
        !send_done_step(s, buf).busy,
        send_done_step(s, buf).kernel_tx == Some(buf),
        command_action(send_done_step(s, buf), 5, arg1, radio) != CommandActionView::Reply(
            ReturnCode::EBUSY,
        ),
        command_action(send_done_step(s, buf), 5, arg1, radio) != CommandActionView::Reply(
            ReturnCode::ENOMEM,
        ),
{
}

/// Once the driver has a transmission buffer at its disposal it keeps one,
/// whatever is called, until it issues a command: the next transmit request
/// is not answered with `ENOMEM`.
pub proof fn lemma_buffer_kept_until_command<C>(
    s: DriverView<C>,
    events: Seq<Event<C>>,
    arg1: usize,
    radio: RadioStatus,
)
    requires
        s.kernel_tx is Some,
        forall|k: int| 0 <= k < events.len() ==> !((#[trigger] events[k]) is Command),
    ensures
        run(s, events).kernel_tx is Some,
        command_action(run(s, events), 5, arg1, radio) != CommandActionView::Reply(
            ReturnCode::ENOMEM,
        ),
    decreases events.len(),
{
    if events.len() > 0 {
        let before = events.drop_last();
        assert forall|k: int| 0 <= k < before.len() implies !((#[trigger] before[k]) is Command) by {
            assert(before[k] == events[k]);
        }
        lemma_buffer_kept_until_command(s, before, arg1, radio);
        assert(events.last() == events[events.len() - 1]);
    }
}

/// A transmit request that passes the checks on the busy flag, the radio
/// and the transmission buffer, and asks for more bytes than the granted
/// write buffer holds, or comes with no write buffer granted, is answered
/// with `ESIZE` and changes nothing: no byte is copied.
pub proof fn lemma_oversize_transmit_rejected<C>(s: DriverView<C>, arg1: usize, radio: RadioStatus)
    requires
        !s.busy,
        radio.ready,
        s.kernel_tx is Some,
        s.record().app_write matches Some(src) ==> arg_length(arg1) > src.len(),
    ensures
        command_action(s, 5, arg1, radio) == CommandActionView::Reply(ReturnCode::ESIZE),
        command_step(s, 5, arg1, radio) == s,
{
}

/// A transmit request that went to the radio and was accepted leaves the
/// driver busy, without a buffer at its disposal and with no frame pending.
pub proof fn lemma_accepted_transmit_is_in_flight<C>(
    s: DriverView<C>,
    arg1: usize,
    radio: RadioStatus,
)
    requires
        command_action(s, 5, arg1, radio) is Transmit,
    ensures
        transmit_result_step(command_step(s, 5, arg1, radio), ReturnCode::SUCCESS) == (DriverView {
            busy: true,
            kernel_tx: None,
            pending_tx: None,
            ..s
        }),
{
}

/// A transmit request that went to the radio and was rejected leaves the
/// driver idle and ready: it has the frame buffer, with the staged payload,
/// at its disposal again, and answers the next transmit request neither
/// with `EBUSY` nor with `ENOMEM`. Nothing else has changed.
pub proof fn lemma_rejected_transmit_keeps_buffer<C>(
    s: DriverView<C>,
    arg1: usize,
    radio: RadioStatus,
    status: ReturnCode,
    next_arg1: usize,
    next_radio: RadioStatus,
)
    requires
        command_action(s, 5, arg1, radio) is Transmit,
        status != ReturnCode::SUCCESS,
    ensures
        !s.busy,
        transmit_result_step(command_step(s, 5, arg1, radio), status) == (DriverView {
            kernel_tx: Some(command_action(s, 5, arg1, radio)->buf),
            pending_tx: None,
            ..s
        }),
        command_action(
            transmit_result_step(command_step(s, 5, arg1, radio), status),
            5,
            next_arg1,
            next_radio,
        ) != CommandActionView::Reply(ReturnCode::EBUSY),
        command_action(
            transmit_result_step(command_step(s, 5, arg1, radio), status),
            5,
            next_arg1,
            next_radio,
        ) != CommandActionView::Reply(ReturnCode::ENOMEM),
{
}

/// An answer of the radio that comes while no frame is pending changes
/// nothing: the busy flag is never set without a frame in flight.
pub proof fn lemma_answer_without_frame_changes_nothing<C>(s: DriverView<C>, status: ReturnCode)
    requires
        s.pending_tx is None,
    ensures
        transmit_result_step(s, status) == s,
{
}

/// A command changes the driver only when it is a transmit request that
/// goes to the radio, and then only by making the transmission buffer,
/// with the payload staged, the pending frame.
pub proof fn lemma_command_changes<C>(
    s: DriverView<C>,
    cmd_num: usize,
    arg1: usize,
    radio: RadioStatus,
)
    ensures
        command_action(s, cmd_num, arg1, radio) is Transmit ==> command_step(
            s,
            cmd_num,
            arg1,
            radio,
        ) == (DriverView {
            kernel_tx: None,
            pending_tx: Some(command_action(s, cmd_num, arg1, radio)->buf),
            ..s
        }),
        !(command_action(s, cmd_num, arg1, radio) is Transmit) ==> command_step(
            s,
            cmd_num,
            arg1,
            radio,
        ) == s,
{
}

/// A reception whose payload lies within the receive buffer and fits the
/// read buffer copies exactly the payload, `len - offset` bytes, to the
/// front of the read buffer and leaves the rest of it as it was.
pub proof fn lemma_receive_copies_payload(dest: Seq<u8>, buf: Seq<u8>, len: u8, offset: u8)
    requires
        offset <= len <= buf.len(),
        len - offset <= dest.len(),
    ensures
        copy_count(dest.len(), buf.len(), len, offset) == len - offset,
        delivered(dest, buf, len, offset).len() == dest.len(),
        delivered(dest, buf, len, offset).subrange(0, len - offset) == buf.subrange(
            offset as int,
            len as int,
        ),
        delivered(dest, buf, len, offset).subrange(len - offset, dest.len() as int)
            == dest.subrange(len - offset, dest.len() as int),
{
}

/// A reception never copies more than the read buffer holds, nor more than
/// the payload, nor from beyond the receive buffer.
pub proof fn lemma_receive_stays_in_bounds(dest: Seq<u8>, buf: Seq<u8>, len: u8, offset: u8)
    ensures
        copy_count(dest.len(), buf.len(), len, offset) <= dest.len(),
        copy_count(dest.len(), buf.len(), len, offset) > 0 ==> offset + copy_count(
            dest.len(),
            buf.len(),
            len,
            offset,
        ) <= len && offset + copy_count(dest.len(), buf.len(), len, offset) <= buf.len(),
        delivered(dest, buf, len, offset).len() == dest.len(),
{
}

} // verus!
