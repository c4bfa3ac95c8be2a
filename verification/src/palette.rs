use vstd::prelude::*;

verus! {

/// The first state of the palette: nothing special goes on.
pub const PALETTE_NORMAL: u8 = 0;

/// What reached the palette from the keyboard or elsewhere.
#[derive(Clone, Copy, PartialEq, Eq, Structural, Debug)]
pub enum PaletteEvent {
    /// A key that stands for a character.
    Char(char),
    /// Any other key.
    OtherKey,
    /// Something that is no key at all.
    NotAKey,
}

/// What the palette does about an event.
#[derive(Clone, Copy, PartialEq, Eq, Structural, Debug)]
pub enum PaletteAction {
    /// Shuffle the deck, take the next card and ask for a redraw.
    ShuffleAndDeal,
    /// Take the next card and ask for a redraw.
    Deal,
    /// Go back to the normal state.
    BackToNormal,
    /// Nothing.
    Nothing,
}

/// What the palette does about `event`: `s` shuffles and deals, `n` deals,
/// every other key leads back to the normal state, and what is no key is
/// passed over.
pub open spec fn action_of(event: PaletteEvent) -> PaletteAction {
    match event {
        PaletteEvent::Char(c) => if c == 's' {
            PaletteAction::ShuffleAndDeal
        } else if c == 'n' {
            PaletteAction::Deal
        } else {
            PaletteAction::BackToNormal
        },
        PaletteEvent::OtherKey => PaletteAction::BackToNormal,
        PaletteEvent::NotAKey => PaletteAction::Nothing,
    }
}

/// The state of the palette after `action`: the normal one where the
/// action leads back to it, else the one it was in.
pub open spec fn state_of(state: u8, action: PaletteAction) -> u8 {
    if action == PaletteAction::BackToNormal {
        PALETTE_NORMAL
    } else {
        state
    }
}

/// The state of the palette after `action`.
pub fn state_after(state: u8, action: PaletteAction) -> (next: u8)
    ensures
        next == state_of(state, action),
{
    match action {
        PaletteAction::BackToNormal => PALETTE_NORMAL,
        _ => state,
    }
}

/// What the palette does about `event`.
pub fn action_for(event: PaletteEvent) -> (action: PaletteAction)
    ensures
        action == action_of(event),
{
    match event {
        PaletteEvent::Char(c) => {
            if c == 's' {
                PaletteAction::ShuffleAndDeal
            } else if c == 'n' {
                PaletteAction::Deal
            } else {
                PaletteAction::BackToNormal
            }
        },
        PaletteEvent::OtherKey => PaletteAction::BackToNormal,
        PaletteEvent::NotAKey => PaletteAction::Nothing,
    }
}

/// Takes the events that have come in, leaves none behind, and says what
/// to do about each, in the order in which they came.
pub fn handle_input(events: &mut Vec<PaletteEvent>) -> (actions: Vec<PaletteAction>)
    ensures
        final(events)@.len() == 0,
        actions@ == Seq::new(old(events)@.len(), |i: int| action_of(old(events)@[i])),
{
    let mut actions: Vec<PaletteAction> = Vec::new();
    let mut i: usize = 0;
    while i < events.len()
        invariant
            i <= events@.len(),
            events@ == old(events)@,
            actions@ == Seq::new(i as nat, |k: int| action_of(old(events)@[k])),
        decreases events@.len() - i,
    {
        actions.push(action_for(events[i]));
        i = i + 1;
        assert(actions@ =~= Seq::new(i as nat, |k: int| action_of(old(events)@[k])));
    }
    events.clear();
    actions
}

} // verus!
