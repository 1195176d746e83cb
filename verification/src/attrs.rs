//! Terminal attributes as plain values, and the change that raw mode makes to
//! them.

use vstd::prelude::*;

verus! {

/// Number of slots in the control-character table.
pub const CONTROL_CHAR_SLOTS: usize = 32;

/// The attribute bits that raw mode touches, one mask per mode.
#[derive(Clone, Copy, Debug, PartialEq, Eq)]
pub struct ModeBits {
    /// Local mode: echo typed characters.
    pub echo: u32,
    /// Local mode: canonical, line-buffered input.
    pub icanon: u32,
    /// Local mode: generate signals from control keys.
    pub isig: u32,
    /// Local mode: extended input processing.
    pub iexten: u32,
    /// Input mode: software flow control on output.
    pub ixon: u32,
    /// Input mode: translate carriage return to newline.
    pub icrnl: u32,
    /// Input mode: signal an interrupt on break.
    pub brkint: u32,
    /// Input mode: parity checking.
    pub inpck: u32,
    /// Input mode: strip the eighth bit.
    pub istrip: u32,
    /// Output mode: post-process output.
    pub opost: u32,
    /// Control mode: the eight-bit character-size mask.
    pub cs8: u32,
}

/// One set of terminal attributes: the four flag words and the
/// control-character table. The line discipline and the line speeds are not
/// part of it; raw mode leaves them alone.
#[derive(Clone, Copy, Debug, PartialEq, Eq)]
pub struct TermAttrs {
    pub input_flags: u32,
    pub output_flags: u32,
    pub control_flags: u32,
    pub local_flags: u32,
    pub control_chars: [u8; CONTROL_CHAR_SLOTS],
}

/// Reads the mode constants of the `termios` crate for the platform the crate
/// is built for: `ECHO`, `ICANON`, `ISIG`, `IEXTEN`, `IXON`, `ICRNL`, `BRKINT`,
/// `INPCK`, `ISTRIP`, `OPOST` and `CS8`.
///
/// Trusted, and nothing is claimed of the values: they differ between
/// platforms.
#[verifier::external_body]
pub(crate) fn platform_mode_bits() -> (bits: ModeBits) {
    ModeBits {
        echo: termios::ECHO,
        icanon: termios::ICANON,
        isig: termios::ISIG,
        iexten: termios::IEXTEN,
        ixon: termios::IXON,
        icrnl: termios::ICRNL,
        brkint: termios::BRKINT,
        inpck: termios::INPCK,
        istrip: termios::ISTRIP,
        opost: termios::OPOST,
        cs8: termios::CS8,
    }
}

impl ModeBits {
    /// The input-mode bits that raw mode clears.
    pub open spec fn input_mask(self) -> u32 {
        self.ixon | self.icrnl | self.brkint | self.inpck | self.istrip
    }

    /// The local-mode bits that raw mode clears.
    pub open spec fn local_mask(self) -> u32 {
        self.echo | self.icanon | self.isig | self.iexten
    }
}

impl TermAttrs {
    /// The attributes of raw mode derived from `self`.
    ///
    /// Input, output and local flags lose the bits of their masks. The control
    /// flags gain the bits of the character-size mask, which selects
    /// eight-bit characters. The control-character table is kept.
    pub open spec fn raw(self, bits: ModeBits) -> TermAttrs {
        TermAttrs {
            input_flags: self.input_flags & !bits.input_mask(),
            output_flags: self.output_flags & !bits.opost,
            control_flags: self.control_flags | bits.cs8,
            local_flags: self.local_flags & !bits.local_mask(),
            control_chars: self.control_chars,
        }
    }

    /// Computes the raw-mode attributes for `self`.
    pub fn make_raw(&self, bits: &ModeBits) -> (r: TermAttrs)
        ensures
            r == self.raw(*bits),
    {
        TermAttrs {
            input_flags: self.input_flags & !(bits.ixon | bits.icrnl | bits.brkint | bits.inpck
                | bits.istrip),
            output_flags: self.output_flags & !bits.opost,
            control_flags: self.control_flags | bits.cs8,
            local_flags: self.local_flags & !(bits.echo | bits.icanon | bits.isig | bits.iexten),
            control_chars: self.control_chars,
        }
    }
}

/// Raw mode leaves none of the modes that it switches off, and it selects
/// eight-bit characters: every masked bit of the input, output and local
/// flags is clear in the result, and every bit of the character-size mask is
/// set in its control flags.
pub proof fn lemma_raw_switches_modes(attrs: TermAttrs, bits: ModeBits)
    ensures
        attrs.raw(bits).control_flags & bits.cs8 == bits.cs8,
        attrs.raw(bits).local_flags & bits.echo == 0,
        attrs.raw(bits).local_flags & bits.icanon == 0,
        attrs.raw(bits).local_flags & bits.isig == 0,
        attrs.raw(bits).local_flags & bits.iexten == 0,
        attrs.raw(bits).input_flags & bits.ixon == 0,
        attrs.raw(bits).input_flags & bits.icrnl == 0,
        attrs.raw(bits).input_flags & bits.brkint == 0,
        attrs.raw(bits).input_flags & bits.inpck == 0,
        attrs.raw(bits).input_flags & bits.istrip == 0,
        attrs.raw(bits).output_flags & bits.opost == 0,
{
    let l = attrs.local_flags;
    let (a, b, c, d) = (bits.echo, bits.icanon, bits.isig, bits.iexten);
    assert({
        let r = l & !(a | b | c | d);
        r & a == 0 && r & b == 0 && r & c == 0 && r & d == 0
    }) by (bit_vector);
    let i = attrs.input_flags;
    let (e, f, g, h, k) = (bits.ixon, bits.icrnl, bits.brkint, bits.inpck, bits.istrip);
    assert({
        let r = i & !(e | f | g | h | k);
        r & e == 0 && r & f == 0 && r & g == 0 && r & h == 0 && r & k == 0
    }) by (bit_vector);
    let o = attrs.output_flags;
    let p = bits.opost;
    assert((o & !p) & p == 0) by (bit_vector);
    let c = attrs.control_flags;
    let m = bits.cs8;
    assert((c | m) & m == m) by (bit_vector);
}

/// Attributes that are already raw stay as they are: deriving raw mode a
/// second time changes nothing.
pub proof fn lemma_raw_idempotent(attrs: TermAttrs, bits: ModeBits)
    ensures
        attrs.raw(bits).raw(bits) == attrs.raw(bits),
{
    let (i, o, c, l) = (
        attrs.input_flags,
        attrs.output_flags,
        attrs.control_flags,
        attrs.local_flags,
    );
    let (im, om, cm, lm) = (bits.input_mask(), bits.opost, bits.cs8, bits.local_mask());
    assert((i & !im) & !im == i & !im) by (bit_vector);
    assert((o & !om) & !om == o & !om) by (bit_vector);
    assert((c | cm) | cm == c | cm) by (bit_vector);
    assert((l & !lm) & !lm == l & !lm) by (bit_vector);
}

} // verus!
