use vstd::prelude::*;

verus! {

/// A snapshot of a terminal's attributes, held as plain values.
#[derive(Debug)]
pub struct TermAttrs {
    pub input_flags: u64,
    pub output_flags: u64,
    pub control_flags: u64,
    pub local_flags: u64,
    pub control_chars: Vec<u8>,
    pub input_speed: u64,
    pub output_speed: u64,
}

/// The platform's bits and slots that raw mode touches.
#[derive(Clone, Copy, Debug)]
pub struct RawModeBits {
    /// Local flag: echo typed characters.
    pub echo: u64,
    /// Local flag: canonical, line-buffered input.
    pub canonical: u64,
    /// Local flag: control characters that raise signals.
    pub signals: u64,
    /// Slot of the minimum byte count of a read.
    pub min_slot: usize,
    /// Slot of the read timeout.
    pub time_slot: usize,
}

impl RawModeBits {
    /// Both slots exist in the control characters of `attrs`, and differ.
    pub open spec fn fits(&self, attrs: TermAttrs) -> bool {
        &&& self.min_slot < attrs.control_chars@.len()
        &&& self.time_slot < attrs.control_chars@.len()
        &&& self.min_slot != self.time_slot
    }

    /// The local flags that raw mode clears.
    pub open spec fn cleared(&self) -> u64 {
        self.echo | self.canonical | self.signals
    }
}

/// `raw` is `orig` with echo, canonical input and signal keys off, and reads
/// returning after each byte with no timeout; all else is kept.
pub open spec fn is_raw_of(raw: TermAttrs, orig: TermAttrs, bits: RawModeBits) -> bool {
    &&& raw.input_flags == orig.input_flags
    &&& raw.output_flags == orig.output_flags
    &&& raw.control_flags == orig.control_flags
    &&& raw.local_flags == orig.local_flags & !bits.cleared()
    &&& raw.input_speed == orig.input_speed
    &&& raw.output_speed == orig.output_speed
    &&& raw.control_chars@ == orig.control_chars@.update(bits.min_slot as int, 1u8).update(
        bits.time_slot as int,
        0u8,
    )
}

/// Two snapshots hold the same values.
pub open spec fn same_attrs(a: TermAttrs, b: TermAttrs) -> bool {
    &&& a.input_flags == b.input_flags
    &&& a.output_flags == b.output_flags
    &&& a.control_flags == b.control_flags
    &&& a.local_flags == b.local_flags
    &&& a.control_chars@ == b.control_chars@
    &&& a.input_speed == b.input_speed
    &&& a.output_speed == b.output_speed
}

/// Copies a snapshot.
pub fn copy_attrs(a: &TermAttrs) -> (r: TermAttrs)
    ensures
        same_attrs(r, *a),
{
    TermAttrs {
        input_flags: a.input_flags,
        output_flags: a.output_flags,
        control_flags: a.control_flags,
        local_flags: a.local_flags,
        control_chars: a.control_chars.clone(),
        input_speed: a.input_speed,
        output_speed: a.output_speed,
    }
}

/// The raw-mode attributes derived from `orig`.
pub fn make_raw(orig: &TermAttrs, bits: &RawModeBits) -> (r: TermAttrs)
    requires
        bits.fits(*orig),
    ensures
        is_raw_of(r, *orig, *bits),
{
    let mut raw = copy_attrs(orig);
    raw.local_flags = orig.local_flags & !(bits.echo | bits.canonical | bits.signals);
    raw.control_chars.set(bits.min_slot, 1u8);
    raw.control_chars.set(bits.time_slot, 0u8);
    raw
}

/// Where a terminal stands between raw mode and its restoration.
pub enum RawModeState {
    /// Raw mode was never applied.
    Untouched,
    /// Raw mode is on; the snapshot taken before is kept.
    Raw(TermAttrs),
    /// The snapshot was handed back; nothing is left to restore.
    Restored,
}

/// Saves a terminal's attributes when raw mode is applied, and hands them
/// back exactly once for restoration.
pub struct RawModeController {
    state: RawModeState,
}

impl RawModeController {
    /// The controller's state.
    pub closed spec fn view_state(&self) -> RawModeState {
        self.state
    }

    /// The snapshot waiting to be restored, if any.
    pub open spec fn saved(&self) -> Option<TermAttrs> {
        match self.view_state() {
            RawModeState::Raw(a) => Some(a),
            _ => None,
        }
    }

    /// A controller that has applied nothing.
    pub fn new() -> (r: Self)
        ensures
            r.view_state() is Untouched,
    {
        RawModeController { state: RawModeState::Untouched }
    }

    /// Is raw mode on?
    pub fn is_raw(&self) -> (r: bool)
        ensures
            r == self.view_state() is Raw,
    {
        match self.state {
            RawModeState::Raw(_) => true,
            _ => false,
        }
    }

    /// Takes the snapshot `current` and returns the raw attributes to install.
    /// On a controller that holds a snapshot already, that older one is kept:
    /// it is the terminal's state from before any raw mode.
    pub fn apply_raw(&mut self, current: &TermAttrs, bits: &RawModeBits) -> (r: TermAttrs)
        requires
            bits.fits(*current),
        ensures
            is_raw_of(r, *current, *bits),
            old(self).view_state() is Raw ==> final(self).view_state() == old(self).view_state(),
            !(old(self).view_state() is Raw) ==> (final(self).saved() matches Some(s) && same_attrs(
                s,
                *current,
            )),
    {
        if !self.is_raw() {
            self.state = RawModeState::Raw(copy_attrs(current));
        }
        make_raw(current, bits)
    }

    /// Hands back the snapshot to reinstall, the first time after raw mode
    /// was applied; `None` on every other call, which then changes nothing.
    pub fn restore(&mut self) -> (r: Option<TermAttrs>)
        ensures
            r == old(self).saved(),
            old(self).view_state() is Raw ==> final(self).view_state() is Restored,
            !(old(self).view_state() is Raw) ==> final(self).view_state() == old(self).view_state(),
    {
        if self.is_raw() {
            let mut prev = RawModeState::Restored;
            core::mem::swap(&mut self.state, &mut prev);
            match prev {
                RawModeState::Raw(a) => Some(a),
                _ => None,
            }
        } else {
            None
        }
    }
}

/// What `apply_raw` leaves on a controller that held no snapshot.
pub open spec fn applied(before: RawModeController, current: TermAttrs, bits: RawModeBits, after: RawModeController, raw: TermAttrs) -> bool {
    &&& !(before.view_state() is Raw)
    &&& is_raw_of(raw, current, bits)
    &&& after.saved() matches Some(s) && same_attrs(s, current)
}

/// What `restore` leaves and returns.
pub open spec fn restored(before: RawModeController, after: RawModeController, r: Option<TermAttrs>) -> bool {
    &&& r == before.saved()
    &&& before.view_state() is Raw ==> after.view_state() is Restored
    &&& !(before.view_state() is Raw) ==> after.view_state() == before.view_state()
}

/// Raw mode then restoration: the raw attributes have echo, canonical input
/// and signal keys off and keep every other flag, and what restoration hands
/// back equals the attributes from before raw mode.
pub proof fn lemma_raw_then_restore(
    c0: RawModeController,
    current: TermAttrs,
    bits: RawModeBits,
    c1: RawModeController,
    raw: TermAttrs,
    c2: RawModeController,
    back: Option<TermAttrs>,
)
    requires
        bits.fits(current),
        applied(c0, current, bits, c1, raw),
        restored(c1, c2, back),
    ensures
        raw.local_flags & bits.cleared() == 0,
        raw.local_flags | bits.cleared() == current.local_flags | bits.cleared(),
        raw.input_flags == current.input_flags,
        raw.output_flags == current.output_flags,
        raw.control_flags == current.control_flags,
        back matches Some(b) && same_attrs(b, current),
        c2.view_state() is Restored,
{
    let l = current.local_flags;
    let m = bits.cleared();
    assert(l & !m & m == 0) by (bit_vector);
    assert((l & !m) | m == l | m) by (bit_vector);
}

/// Restoring a second time hands back nothing and changes nothing.
pub proof fn lemma_restore_twice(
    c1: RawModeController,
    c2: RawModeController,
    first: Option<TermAttrs>,
    c3: RawModeController,
    second: Option<TermAttrs>,
)
    requires
        restored(c1, c2, first),
        restored(c2, c3, second),
    ensures
        second is None,
        c3.view_state() == c2.view_state(),
{
}

} // verus!
