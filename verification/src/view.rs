//! Main-loop event decisions.
//!
//! Each frame the demo drains the window's event queue. Escape or a close
//! request quits; the numpad keys pick which buffer the blit pass shows:
//! one of the geometry buffer's targets for debugging, or the finished
//! result. The decisions are pure; reading the window's queue and doing the
//! blit are the renderer's job.

use vstd::prelude::*;

verus! {

/// One of the intermediate targets that can be shown instead of the result.
#[derive(Clone, Copy, Debug, PartialEq, Eq, Structural)]
pub enum DebugBuffer {
    Position,
    Normal,
    Diffuse,
    Depth,
}

/// A key the main loop reacts to.
#[derive(Clone, Copy, Debug, PartialEq, Eq, Structural)]
pub enum Key {
    Escape,
    Numpad0,
    Numpad1,
    Numpad2,
    Numpad3,
    Numpad4,
    Other,
}

/// A window event, as far as the main loop reads it.
#[derive(Clone, Copy, Debug, PartialEq, Eq, Structural)]
pub enum LoopEvent {
    /// The window was asked to close.
    Closed,
    /// A key was pressed.
    KeyPressed(Key),
    /// Anything else; the loop ignores it.
    Other,
}

/// What one event does to the loop: whether it quits, and which buffer the
/// blit pass shows afterwards (`None` is the finished result).
pub open spec fn step_spec(shown: Option<DebugBuffer>, e: LoopEvent) -> (bool, Option<
    DebugBuffer,
>) {
    match e {
        LoopEvent::Closed => (true, shown),
        LoopEvent::KeyPressed(k) => match k {
            Key::Escape => (true, shown),
            Key::Numpad0 => (false, None),
            Key::Numpad1 => (false, Some(DebugBuffer::Position)),
            Key::Numpad2 => (false, Some(DebugBuffer::Normal)),
            Key::Numpad3 => (false, Some(DebugBuffer::Diffuse)),
            Key::Numpad4 => (false, Some(DebugBuffer::Depth)),
            Key::Other => (false, shown),
        },
        LoopEvent::Other => (false, shown),
    }
}

/// What a whole event queue does to the loop: events apply in order, and the
/// first quitting event stops the loop with the selection it found.
pub open spec fn process_spec(shown: Option<DebugBuffer>, evs: Seq<LoopEvent>) -> (bool, Option<
    DebugBuffer,
>)
    decreases evs.len(),
{
    if evs.len() == 0 {
        (false, shown)
    } else {
        let s = step_spec(shown, evs[0]);
        if s.0 {
            (true, s.1)
        } else {
            process_spec(s.1, evs.skip(1))
        }
    }
}

/// Applies one event to the loop's display selection.
pub fn handle_event(shown: Option<DebugBuffer>, e: LoopEvent) -> (r: (bool, Option<DebugBuffer>))
    ensures
        r == step_spec(shown, e),
{
    match e {
        LoopEvent::Closed => (true, shown),
        LoopEvent::KeyPressed(k) => match k {
            Key::Escape => (true, shown),
            Key::Numpad0 => (false, None),
            Key::Numpad1 => (false, Some(DebugBuffer::Position)),
            Key::Numpad2 => (false, Some(DebugBuffer::Normal)),
            Key::Numpad3 => (false, Some(DebugBuffer::Diffuse)),
            Key::Numpad4 => (false, Some(DebugBuffer::Depth)),
            Key::Other => (false, shown),
        },
        LoopEvent::Other => (false, shown),
    }
}

/// Applies a frame's event queue in order, stopping at the first quitting
/// event.
pub fn process_events(shown: Option<DebugBuffer>, events: &Vec<LoopEvent>) -> (r: (
    bool,
    Option<DebugBuffer>,
))
    ensures
        r == process_spec(shown, events@),
{
    let mut state: Option<DebugBuffer> = shown;
    let mut i: usize = 0;
    proof {
        assert(events@.skip(0) =~= events@);
    }
    while i < events.len()
        invariant
            i <= events@.len(),
            process_spec(shown, events@) == process_spec(state, events@.skip(i as int)),
        decreases events@.len() - i,
    {
        let s = handle_event(state, events[i]);
        proof {
            assert(events@.skip(i as int)[0] == events@[i as int]);
            assert(events@.skip(i as int).skip(1) =~= events@.skip(i as int + 1));
        }
        if s.0 {
            return (true, s.1);
        }
        state = s.1;
        i = i + 1;
    }
    proof {
        assert(events@.skip(i as int).len() == 0);
    }
    (false, state)
}

/// Whether an event quits the loop, whatever is shown: a close request or
/// the Escape key.
pub open spec fn is_quit_event(e: LoopEvent) -> bool {
    match e {
        LoopEvent::Closed => true,
        LoopEvent::KeyPressed(k) => k == Key::Escape,
        LoopEvent::Other => false,
    }
}

/// The loop quits on a queue exactly when the queue holds a close request
/// or an Escape press.
pub proof fn lemma_quit_iff_quit_event(shown: Option<DebugBuffer>, evs: Seq<LoopEvent>)
    ensures
        process_spec(shown, evs).0 <==> exists|k: int|
            0 <= k < evs.len() && is_quit_event(evs[k]),
    decreases evs.len(),
{
    if evs.len() > 0 {
        let s = step_spec(shown, evs[0]);
        assert(s.0 == is_quit_event(evs[0]));
        if s.0 {
            assert(is_quit_event(evs[0]));
        } else {
            lemma_quit_iff_quit_event(s.1, evs.skip(1));
            if process_spec(shown, evs).0 {
                let k = choose|k: int|
                    0 <= k < evs.skip(1).len() && is_quit_event(evs.skip(1)[k]);
                assert(evs.skip(1)[k] == evs[k + 1]);
                assert(is_quit_event(evs[k + 1]));
            } else {
                assert forall|k: int| 0 <= k < evs.len() implies !is_quit_event(evs[k]) by {
                    if k > 0 {
                        assert(evs.skip(1)[k - 1] == evs[k]);
                    }
                }
            }
        }
    }
}

/// A quitting event ends every queue it stands in: whatever follows it, the
/// loop stops, and the selection shown is the one reached at that event.
pub proof fn lemma_quit_stops_queue(shown: Option<DebugBuffer>, evs: Seq<LoopEvent>)
    requires
        evs.len() > 0,
        step_spec(shown, evs[0]).0,
    ensures
        process_spec(shown, evs).0,
        process_spec(shown, evs).1 == step_spec(shown, evs[0]).1,
{
}

} // verus!
