use vstd::prelude::*;

use crate::tablet::{lemma_cleared_is_blank, Tablet, TabletView};

verus! {

/// How a client asks the signature to be placed; accepted and otherwise inert.
#[derive(Clone, Copy, Debug, PartialEq, Eq, Structural)]
pub enum JustifyMode {
    Unjustified,
    TopLeft,
    TopRight,
    BottomLeft,
    BottomRight,
    Center,
}

pub open spec fn justify_mode_of(value: u32) -> JustifyMode {
    if value == 1 {
        JustifyMode::TopLeft
    } else if value == 2 {
        JustifyMode::TopRight
    } else if value == 3 {
        JustifyMode::BottomLeft
    } else if value == 4 {
        JustifyMode::BottomRight
    } else if value == 5 {
        JustifyMode::Center
    } else {
        JustifyMode::Unjustified
    }
}

/// The reply to a query of the armed flag.
pub open spec fn tablet_state_reply(v: TabletView) -> Seq<char> {
    if v.state {
        seq!['1']
    } else {
        seq!['0']
    }
}

/// The protocol version the emulated tablet reports, quotes included.
pub open spec fn version_reply() -> Seq<char> {
    seq!['"', '1', '.', '7', '.', '2', '.', '0', '"']
}

/// Reads the armed flag: `"1"` or `"0"`.
pub fn get_tablet_state(tablet: &Tablet) -> (r: &'static str)
    ensures
        r@ == tablet_state_reply(tablet@),
{
    proof {
        reveal_strlit("1");
        reveal_strlit("0");
    }
    if tablet.is_armed() {
        "1"
    } else {
        "0"
    }
}

/// Arms the tablet when `value` is 1 and disarms it otherwise.
pub fn set_tablet_state(tablet: &mut Tablet, value: u32)
    ensures
        final(tablet)@ == (TabletView { state: value == 1, ..old(tablet)@ }),
{
    tablet.set_armed(value == 1);
}

pub fn version() -> (r: &'static str)
    ensures
        r@ == version_reply(),
{
    proof {
        reveal_strlit("\"1.7.2.0\"");
    }
    "\"1.7.2.0\""
}

/// The emulated tablet has no certificate; it always answers `"0"`.
pub fn get_days_until_certificate_expires() -> (r: &'static str)
    ensures
        r@ == seq!['0'],
{
    proof {
        reveal_strlit("0");
    }
    "0"
}

/// Decodes a justification request; the tablet keeps no trace of it.
pub fn set_justify_mode(value: u32) -> (r: JustifyMode)
    ensures
        r == justify_mode_of(value),
{
    match value {
        1 => JustifyMode::TopLeft,
        2 => JustifyMode::TopRight,
        3 => JustifyMode::BottomLeft,
        4 => JustifyMode::BottomRight,
        5 => JustifyMode::Center,
        _ => JustifyMode::Unjustified,
    }
}

/// Erases the signature.
pub fn clear_signature(tablet: &mut Tablet)
    requires
        old(tablet)@.wf(),
    ensures
        final(tablet)@ == old(tablet)@.cleared(),
        final(tablet)@.wf(),
{
    tablet.clear();
}

/// How much ink has been captured: the number of non-blank pixels.
pub fn get_total_points(tablet: &Tablet) -> (r: usize)
    requires
        tablet@.wf(),
    ensures
        r == tablet@.point_count(),
{
    tablet.total_points()
}

/// Puts the tablet back in its initial state.
pub fn reset(tablet: &mut Tablet)
    ensures
        final(tablet)@.is_fresh(),
{
    tablet.reset();
}

/// Arming with 1 and then reading the flag gives `"1"`; any other value gives `"0"`.
pub proof fn lemma_set_then_get_state(v: TabletView, value: u32)
    ensures
        tablet_state_reply(TabletView { state: value == 1, ..v }) == (if value == 1 {
            seq!['1']
        } else {
            seq!['0']
        }),
{
}

/// A reset tablet reads as not armed.
pub proof fn lemma_reset_then_get_state(v: TabletView)
    requires
        v.is_fresh(),
    ensures
        tablet_state_reply(v) == seq!['0'],
{
}

/// After the signature is cleared, the total point count is zero.
pub proof fn lemma_clear_then_total_points(v: TabletView)
    requires
        v.wf(),
    ensures
        v.cleared().point_count() == 0,
{
    lemma_cleared_is_blank(v);
}

} // verus!
