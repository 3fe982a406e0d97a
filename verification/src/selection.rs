//! Who owns the clipboard and the primary selection, on which side of the
//! two protocols.

use crate::focus::KeyboardFocusTarget;
use crate::state::State;
use vstd::prelude::*;

verus! {

/// The two selections.
#[derive(Clone, Copy, Debug, PartialEq, Eq, Structural)]
pub enum SelectionTarget {
    Clipboard,
    Primary,
}

/// The two sides that the bridge joins.
#[derive(Clone, Copy, Debug, PartialEq, Eq, Structural)]
pub enum Side {
    /// Clients of the native protocol.
    Native,
    /// Clients of the legacy protocol.
    Legacy,
}

/// One side owning a selection, with the types it offers.
#[derive(Clone, Debug, PartialEq, Eq)]
pub struct SelectionOwnership {
    pub side: Side,
    /// Tells one acquisition from the next.
    pub marker: u64,
    pub mime_types: Vec<String>,
}

/// The owners of both selections.
#[derive(Clone, Debug, PartialEq, Eq)]
pub struct SelectionBridge {
    pub clipboard: Option<SelectionOwnership>,
    pub primary: Option<SelectionOwnership>,
}

/// Bytes of one type to be piped from the owner of a selection to the side
/// that asked for them.
#[derive(Clone, Debug, PartialEq, Eq)]
pub struct Transfer {
    pub from: Side,
    pub to: Side,
    pub mime_type: String,
}

impl Side {
    /// The other side.
    pub open spec fn other(self) -> Side {
        match self {
            Side::Native => Side::Legacy,
            Side::Legacy => Side::Native,
        }
    }

    /// The other side.
    pub fn opposite(self) -> (s: Side)
        ensures
            s == self.other(),
    {
        match self {
            Side::Native => Side::Legacy,
            Side::Legacy => Side::Native,
        }
    }
}

impl SelectionOwnership {
    /// The selection was acquired on `side` by the acquisition `marker`.
    pub open spec fn is_from(self, side: Side, marker: u64) -> bool {
        self.side == side && self.marker == marker
    }
}

impl SelectionBridge {
    /// The owner of the selection `target`.
    pub open spec fn owner(self, target: SelectionTarget) -> Option<SelectionOwnership> {
        match target {
            SelectionTarget::Clipboard => self.clipboard,
            SelectionTarget::Primary => self.primary,
        }
    }

    /// This bridge with `owner` as the owner of `target`.
    pub open spec fn with_owner(
        self,
        target: SelectionTarget,
        owner: Option<SelectionOwnership>,
    ) -> SelectionBridge {
        match target {
            SelectionTarget::Clipboard => SelectionBridge {
                clipboard: owner,
                primary: self.primary,
            },
            SelectionTarget::Primary => SelectionBridge {
                clipboard: self.clipboard,
                primary: owner,
            },
        }
    }

    /// No selection has an owner.
    pub fn new() -> (b: SelectionBridge)
        ensures
            b.clipboard is None,
            b.primary is None,
    {
        SelectionBridge { clipboard: None, primary: None }
    }

    /// `side` acquired the selection `target`, offering `mime_types`: the
    /// record that mirrors the ownership to the other side holds the same
    /// list. The last acquisition wins.
    pub fn new_selection(
        &mut self,
        target: SelectionTarget,
        side: Side,
        marker: u64,
        mime_types: Vec<String>,
    )
        ensures
            *final(self) == old(self).with_owner(
                target,
                Some(SelectionOwnership { side, marker, mime_types }),
            ),
    {
        let owner = Some(SelectionOwnership { side, marker, mime_types });
        match target {
            SelectionTarget::Clipboard => {
                self.clipboard = owner;
            },
            SelectionTarget::Primary => {
                self.primary = owner;
            },
        }
    }

    /// The selection `target` was cleared on `side`, for the acquisition
    /// `marker`: the record goes if it still is of that acquisition, and stays
    /// if a newer one has taken its place. Returns whether it went.
    pub fn cleared_selection(
        &mut self,
        target: SelectionTarget,
        side: Side,
        marker: u64,
    ) -> (cleared: bool)
        ensures
            cleared == (old(self).owner(target) matches Some(o) && o.is_from(side, marker)),
            cleared ==> *final(self) == old(self).with_owner(target, None),
            !cleared ==> *final(self) == *old(self),
    {
        let matches = match target {
            SelectionTarget::Clipboard => match &self.clipboard {
                Some(o) => same_side(o.side, side) && o.marker == marker,
                None => false,
            },
            SelectionTarget::Primary => match &self.primary {
                Some(o) => same_side(o.side, side) && o.marker == marker,
                None => false,
            },
        };
        if matches {
            match target {
                SelectionTarget::Clipboard => {
                    self.clipboard = None;
                },
                SelectionTarget::Primary => {
                    self.primary = None;
                },
            }
        }
        matches
    }

    /// `requester` asks for the selection `target` in the type `mime_type`:
    /// where the other side owns the selection, bytes of that one type are to
    /// be piped from there.
    pub fn send_selection(&self, target: SelectionTarget, requester: Side, mime_type: String) -> (r:
        Option<Transfer>)
        ensures
            r == if self.owner(target) matches Some(o) && o.side == requester.other() {
                Some(Transfer { from: requester.other(), to: requester, mime_type })
            } else {
                None
            },
    {
        let owner_side = match target {
            SelectionTarget::Clipboard => match &self.clipboard {
                Some(o) => Some(o.side),
                None => None,
            },
            SelectionTarget::Primary => match &self.primary {
                Some(o) => Some(o.side),
                None => None,
            },
        };
        match owner_side {
            Some(side) => {
                if same_side(side, requester.opposite()) {
                    Some(Transfer { from: requester.opposite(), to: requester, mime_type })
                } else {
                    None
                }
            },
            None => None,
        }
    }
}

/// Whether the two sides are the same.
pub fn same_side(a: Side, b: Side) -> (r: bool)
    ensures
        r == (a == b),
{
    match (a, b) {
        (Side::Native, Side::Native) => true,
        (Side::Legacy, Side::Legacy) => true,
        _ => false,
    }
}

impl State {
    /// Whether legacy clients may read and set the selections: while a legacy
    /// window holds the keyboard focus.
    pub fn allow_selection_access(&self) -> (allowed: bool)
        ensures
            allowed == (self.seat.keyboard_focus matches Some(KeyboardFocusTarget::Window(w))
                && w.surface is X11),
    {
        match self.seat.keyboard_focus {
            Some(KeyboardFocusTarget::Window(w)) => w.is_x11(),
            _ => false,
        }
    }
}

/// A selection that one side acquired is mirrored with the list that it
/// offered, and a clear from that side for that acquisition takes the mirror
/// away, while a clear for an older acquisition leaves it.
pub proof fn lemma_selection_mirror(
    bridge: SelectionBridge,
    target: SelectionTarget,
    side: Side,
    marker: u64,
    stale: u64,
    mime_types: Vec<String>,
)
    requires
        stale != marker,
    ensures
        ({
            let acquired = bridge.with_owner(
                target,
                Some(SelectionOwnership { side, marker, mime_types }),
            );
            &&& acquired.owner(target) matches Some(o) && o.mime_types == mime_types && o.is_from(
                side,
                marker,
            ) && !o.is_from(side, stale) && !o.is_from(side.other(), marker)
            &&& acquired.with_owner(target, None).owner(target) is None
        }),
{
}

} // verus!
