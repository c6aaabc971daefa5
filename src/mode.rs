use vstd::prelude::*;

verus! {

/// The addressing modes an opcode can select.
#[derive(Clone, Copy, Debug, PartialEq, Eq, Structural)]
pub enum Mode {
    Accumulator,
    Implied,
    Immediate,
    ZeroPage,
    ZeroPageX,
    ZeroPageY,
    Relative,
    Absolute,
    AbsoluteX,
    AbsoluteY,
    Indirect,
    IndirectX,
    IndirectY,
}

/// An opcode byte whose bit fields select no addressing mode.
#[derive(Clone, Copy, Debug, PartialEq, Eq, Structural)]
pub struct DecodeError {
    pub opcode: u8,
    /// Bits 7..5 of the opcode.
    pub a: u8,
    /// Bits 4..2 of the opcode.
    pub b: u8,
    /// Bits 1..0 of the opcode.
    pub cc: u8,
}

/// High group `aaa` of an opcode `aaabbbcc`.
pub open spec fn field_a(op: u8) -> u8 {
    op / 32
}

/// Middle group `bbb` of an opcode `aaabbbcc`.
pub open spec fn field_b(op: u8) -> u8 {
    (op / 4) % 8
}

/// Low group `cc` of an opcode `aaabbbcc`.
pub open spec fn field_cc(op: u8) -> u8 {
    op % 4
}

/// The addressing-mode table, keyed by `(cc, b, a)`; `None` where the
/// combination is not a valid instruction encoding.
pub open spec fn mode_table(a: u8, b: u8, cc: u8) -> Option<Mode> {
    if cc == 0 {
        if b == 0 {
            if a == 0 || a == 2 || a == 3 {
                Some(Mode::Implied)
            } else if a == 1 {
                Some(Mode::Absolute)
            } else if a >= 5 {
                Some(Mode::Immediate)
            } else {
                None
            }
        } else if b == 1 {
            if a == 1 || a >= 4 { Some(Mode::ZeroPage) } else { None }
        } else if b == 2 || b == 6 {
            Some(Mode::Implied)
        } else if b == 3 {
            if a == 0 {
                None
            } else if a == 3 {
                Some(Mode::Indirect)
            } else {
                Some(Mode::Absolute)
            }
        } else if b == 4 {
            Some(Mode::Relative)
        } else if b == 5 {
            if a == 4 || a == 5 { Some(Mode::ZeroPageX) } else { None }
        } else {
            if a == 5 { Some(Mode::AbsoluteX) } else { None }
        }
    } else if cc == 1 {
        if b == 0 {
            Some(Mode::IndirectX)
        } else if b == 1 {
            Some(Mode::ZeroPage)
        } else if b == 2 {
            if a == 4 { None } else { Some(Mode::Immediate) }
        } else if b == 3 {
            Some(Mode::Absolute)
        } else if b == 4 {
            Some(Mode::IndirectY)
        } else if b == 5 {
            Some(Mode::ZeroPageX)
        } else if b == 6 {
            Some(Mode::AbsoluteY)
        } else {
            Some(Mode::AbsoluteX)
        }
    } else if cc == 2 {
        if b == 0 {
            if a == 0 {
                Some(Mode::Implied)
            } else if a == 5 {
                Some(Mode::Immediate)
            } else {
                None
            }
        } else if b == 1 {
            Some(Mode::ZeroPage)
        } else if b == 2 {
            if a <= 3 { Some(Mode::Accumulator) } else { Some(Mode::Implied) }
        } else if b == 3 {
            Some(Mode::Absolute)
        } else if b == 4 {
            Some(Mode::ZeroPageX)
        } else if b == 5 {
            if a == 4 || a == 5 { Some(Mode::ZeroPageY) } else { Some(Mode::ZeroPageX) }
        } else if b == 6 {
            if a == 4 || a == 5 { Some(Mode::Implied) } else { None }
        } else {
            if a == 5 {
                Some(Mode::AbsoluteY)
            } else if a == 4 {
                None
            } else {
                Some(Mode::AbsoluteX)
            }
        }
    } else {
        None
    }
}

/// What the classifier gives for an opcode byte: its mode, or the decode
/// failure naming the byte and its three fields.
pub open spec fn mode_of(op: u8) -> Result<Mode, DecodeError> {
    match mode_table(field_a(op), field_b(op), field_cc(op)) {
        Some(m) => Ok(m),
        None => Err(DecodeError { opcode: op, a: field_a(op), b: field_b(op), cc: field_cc(op) }),
    }
}

/// Classifies an opcode byte into its addressing mode. A pure function of the
/// byte: equal bytes always give equal results.
pub fn classify(op: u8) -> (r: Result<Mode, DecodeError>)
    ensures
        r == mode_of(op),
{
    let a: u8 = op / 32;
    let b: u8 = (op / 4) % 8;
    let cc: u8 = op % 4;
    let fail = DecodeError { opcode: op, a, b, cc };
    if cc == 0 {
        match b {
            0 => match a {
                0 | 2 | 3 => Ok(Mode::Implied),
                1 => Ok(Mode::Absolute),
                5..=7 => Ok(Mode::Immediate),
                _ => Err(fail),
            },
            1 => match a {
                1 | 4..=7 => Ok(Mode::ZeroPage),
                _ => Err(fail),
            },
            2 | 6 => Ok(Mode::Implied),
            3 => match a {
                0 => Err(fail),
                3 => Ok(Mode::Indirect),
                _ => Ok(Mode::Absolute),
            },
            4 => Ok(Mode::Relative),
            5 => match a {
                4 | 5 => Ok(Mode::ZeroPageX),
                _ => Err(fail),
            },
            _ => match a {
                5 => Ok(Mode::AbsoluteX),
                _ => Err(fail),
            },
        }
    } else if cc == 1 {
        match b {
            0 => Ok(Mode::IndirectX),
            1 => Ok(Mode::ZeroPage),
            2 => match a {
                4 => Err(fail),
                _ => Ok(Mode::Immediate),
            },
            3 => Ok(Mode::Absolute),
            4 => Ok(Mode::IndirectY),
            5 => Ok(Mode::ZeroPageX),
            6 => Ok(Mode::AbsoluteY),
            _ => Ok(Mode::AbsoluteX),
        }
    } else if cc == 2 {
        match b {
            0 => match a {
                0 => Ok(Mode::Implied),
                5 => Ok(Mode::Immediate),
                _ => Err(fail),
            },
            1 => Ok(Mode::ZeroPage),
            2 => match a {
                0..=3 => Ok(Mode::Accumulator),
                _ => Ok(Mode::Implied),
            },
            3 => Ok(Mode::Absolute),
            4 => Ok(Mode::ZeroPageX),
            5 => match a {
                4 | 5 => Ok(Mode::ZeroPageY),
                _ => Ok(Mode::ZeroPageX),
            },
            6 => match a {
                4 | 5 => Ok(Mode::Implied),
                _ => Err(fail),
            },
            _ => match a {
                5 => Ok(Mode::AbsoluteY),
                4 => Err(fail),
                _ => Ok(Mode::AbsoluteX),
            },
        }
    } else {
        Err(fail)
    }
}

} // verus!
