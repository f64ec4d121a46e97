//! One 16-bit CHIP-8 instruction word, decoded into nibble fields and the
//! named operand accessors the dispatch table reads.

use vstd::prelude::*;

verus! {

/// Highest nibble of an instruction word (the opcode family).
pub open spec fn nib0(op: u16) -> u8 {
    ((op & 0xF000) >> 12) as u8
}

/// Second nibble: the `x` register operand.
pub open spec fn nib1(op: u16) -> u8 {
    ((op & 0x0F00) >> 8) as u8
}

/// Third nibble: the `y` register operand.
pub open spec fn nib2(op: u16) -> u8 {
    ((op & 0x00F0) >> 4) as u8
}

/// Lowest nibble: the `n` operand (sprite height).
pub open spec fn nib3(op: u16) -> u8 {
    (op & 0x000F) as u8
}

/// Low 12 bits: the address operand `nnn`.
pub open spec fn nnn(op: u16) -> u16 {
    op & 0x0FFF
}

/// Low 8 bits: the byte operand `kk`.
pub open spec fn kk(op: u16) -> u8 {
    op as u8
}

/// Every nibble is below 16 and the address operand below 4096.
pub proof fn lemma_field_bounds(op: u16)
    by (bit_vector)
    ensures
        nib0(op) < 16,
        nib1(op) < 16,
        nib2(op) < 16,
        nib3(op) < 16,
        nnn(op) < 4096,
{
}

/// One big-endian 16-bit instruction word.
#[derive(Clone, Copy, Debug, PartialEq, Eq, Structural)]
pub struct Opcode {
    /// The raw instruction word.
    pub word: u16,
}

impl View for Opcode {
    type V = u16;

    open spec fn view(&self) -> u16 {
        self.word
    }
}

impl Opcode {
    /// Builds the instruction word from its two big-endian bytes.
    pub fn new(upper: u8, lower: u8) -> (r: Opcode)
        ensures
            r@ == upper * 256 + lower,
    {
        Opcode { word: (upper as u16) * 256 + (lower as u16) }
    }

    /// The four 4-bit fields, highest first.
    pub fn nibbles(&self) -> (r: (u8, u8, u8, u8))
        ensures
            r.0 == nib0(self@),
            r.1 == nib1(self@),
            r.2 == nib2(self@),
            r.3 == nib3(self@),
            r.0 < 16 && r.1 < 16 && r.2 < 16 && r.3 < 16,
    {
        proof {
            lemma_field_bounds(self@);
        }
        (
            ((self.word & 0xF000) >> 12) as u8,
            ((self.word & 0x0F00) >> 8) as u8,
            ((self.word & 0x00F0) >> 4) as u8,
            (self.word & 0x000F) as u8,
        )
    }

    /// The 12-bit address operand.
    pub fn address(&self) -> (r: u16)
        ensures
            r == nnn(self@),
            r < 4096,
    {
        proof {
            lemma_field_bounds(self@);
        }
        self.word & 0x0FFF
    }

    /// The low byte operand.
    pub fn kk_byte(&self) -> (r: u8)
        ensures
            r == kk(self@),
    {
        #[verifier::truncate]
        (self.word as u8)
    }

    /// A human-readable mnemonic of the instruction, for diagnostics
    /// only: it affects no behavior and no other contract speaks of it.
    /// Never empty.
    pub fn mnemonic(&self) -> (r: String)
        ensures
            r@.len() > 0,
    {
        let nibs = self.nibbles();
        let x = nibs.1;
        let y = nibs.2;
        let mut s = String::new();
        match (nibs.0, nibs.1, nibs.2, nibs.3) {
            (0x0, 0x0, 0xE, 0x0) => {
                s.append("CLS");
                proof {
                    reveal_strlit("CLS");
                }
            },
            (0x0, 0x0, 0xE, 0xE) => {
                s.append("RET");
                proof {
                    reveal_strlit("RET");
                }
            },
            (0x0, _, _, _) => {
                s.append("SYS ");
                proof {
                    reveal_strlit("SYS ");
                }
                append_hex_prefixed(&mut s, self.address());
            },
            (0x1, _, _, _) => {
                s.append("JP ");
                proof {
                    reveal_strlit("JP ");
                }
                append_hex_prefixed(&mut s, self.address());
            },
            (0x2, _, _, _) => {
                s.append("CALL ");
                proof {
                    reveal_strlit("CALL ");
                }
                append_hex_prefixed(&mut s, self.address());
            },
            (0x3, _, _, _) => {
                s.append("SE ");
                proof {
                    reveal_strlit("SE ");
                }
                append_vreg(&mut s, x);
                s.append(", ");
                append_hex_prefixed(&mut s, self.kk_byte() as u16);
            },
            (0x4, _, _, _) => {
                s.append("SNE ");
                proof {
                    reveal_strlit("SNE ");
                }
                append_vreg(&mut s, x);
                s.append(", ");
                append_hex_prefixed(&mut s, self.kk_byte() as u16);
            },
            (0x5, _, _, 0x0) => {
                s.append("SE ");
                proof {
                    reveal_strlit("SE ");
                }
                append_vreg(&mut s, x);
                s.append(", ");
                append_vreg(&mut s, y);
            },
            (0x6, _, _, _) => {
                s.append("LD ");
                proof {
                    reveal_strlit("LD ");
                }
                append_vreg(&mut s, x);
                s.append(" ");
                append_hex_prefixed(&mut s, self.kk_byte() as u16);
            },
            (0x7, _, _, _) => {
                s.append("ADD ");
                proof {
                    reveal_strlit("ADD ");
                }
                append_vreg(&mut s, x);
                s.append(" ");
                append_hex_prefixed(&mut s, self.kk_byte() as u16);
            },
            (0x8, _, _, 0x0) => {
                s.append("LD ");
                proof {
                    reveal_strlit("LD ");
                }
                append_vreg(&mut s, x);
                s.append(", ");
                append_vreg(&mut s, y);
            },
            (0x8, _, _, 0x1) => {
                s.append("OR ");
                proof {
                    reveal_strlit("OR ");
                }
                append_vreg(&mut s, x);
                s.append(", ");
                append_vreg(&mut s, y);
            },
            (0x8, _, _, 0x2) => {
                s.append("AND ");
                proof {
                    reveal_strlit("AND ");
                }
                append_vreg(&mut s, x);
                s.append(", ");
                append_vreg(&mut s, y);
            },
            (0x8, _, _, 0x3) => {
                s.append("XOR ");
                proof {
                    reveal_strlit("XOR ");
                }
                append_vreg(&mut s, x);
                s.append(", ");
                append_vreg(&mut s, y);
            },
            (0x8, _, _, 0x4) => {
                s.append("ADD ");
                proof {
                    reveal_strlit("ADD ");
                }
                append_vreg(&mut s, x);
                s.append(", ");
                append_vreg(&mut s, y);
            },
            (0x8, _, _, 0x5) => {
                s.append("SUB ");
                proof {
                    reveal_strlit("SUB ");
                }
                append_vreg(&mut s, x);
                s.append(", ");
                append_vreg(&mut s, y);
            },
            (0x8, _, _, 0x6) => {
                s.append("SHR ");
                proof {
                    reveal_strlit("SHR ");
                }
                append_vreg(&mut s, x);
            },
            (0x8, _, _, 0x7) => {
                s.append("SUBN ");
                proof {
                    reveal_strlit("SUBN ");
                }
                append_vreg(&mut s, x);
                s.append(", ");
                append_vreg(&mut s, y);
            },
            (0x8, _, _, 0xE) => {
                s.append("SHL ");
                proof {
                    reveal_strlit("SHL ");
                }
                append_vreg(&mut s, x);
            },
            (0x9, _, _, 0x0) => {
                s.append("SNE ");
                proof {
                    reveal_strlit("SNE ");
                }
                append_vreg(&mut s, x);
                s.append(", ");
                append_vreg(&mut s, y);
            },
            (0xA, _, _, _) => {
                s.append("LD I, ");
                proof {
                    reveal_strlit("LD I, ");
                }
                append_hex_prefixed(&mut s, self.address());
            },
            (0xB, _, _, _) => {
                s.append("JP V0, ");
                proof {
                    reveal_strlit("JP V0, ");
                }
                append_hex_prefixed(&mut s, self.address());
            },
            (0xC, _, _, _) => {
                s.append("RND ");
                proof {
                    reveal_strlit("RND ");
                }
                append_vreg(&mut s, x);
                s.append(", ");
                append_hex_prefixed(&mut s, self.kk_byte() as u16);
            },
            (0xD, _, _, _) => {
                s.append("DRW ");
                proof {
                    reveal_strlit("DRW ");
                }
                append_vreg(&mut s, x);
                s.append(", ");
                append_vreg(&mut s, y);
                s.append(", ");
                append_hex_prefixed(&mut s, nibs.3 as u16);
            },
            (0xE, _, 0x9, 0xE) => {
                s.append("SKP ");
                proof {
                    reveal_strlit("SKP ");
                }
                append_vreg(&mut s, x);
            },
            (0xE, _, 0xA, 0x1) => {
                s.append("SKNP ");
                proof {
                    reveal_strlit("SKNP ");
                }
                append_vreg(&mut s, x);
            },
            (0xF, _, 0x0, 0x7) => {
                s.append("LD ");
                proof {
                    reveal_strlit("LD ");
                }
                append_vreg(&mut s, x);
                s.append(", DT");
            },
            (0xF, _, 0x0, 0xA) => {
                s.append("LD ");
                proof {
                    reveal_strlit("LD ");
                }
                append_vreg(&mut s, x);
                s.append(", K");
            },
            (0xF, _, 0x1, 0x5) => {
                s.append("LD DT, ");
                proof {
                    reveal_strlit("LD DT, ");
                }
                append_vreg(&mut s, x);
            },
            (0xF, _, 0x1, 0x8) => {
                s.append("LD ST, ");
                proof {
                    reveal_strlit("LD ST, ");
                }
                append_vreg(&mut s, x);
            },
            (0xF, _, 0x1, 0xE) => {
                s.append("ADD I, ");
                proof {
                    reveal_strlit("ADD I, ");
                }
                append_vreg(&mut s, x);
            },
            (0xF, _, 0x2, 0x9) => {
                s.append("LD F, ");
                proof {
                    reveal_strlit("LD F, ");
                }
                append_vreg(&mut s, x);
            },
            (0xF, _, 0x3, 0x3) => {
                s.append("LD B, ");
                proof {
                    reveal_strlit("LD B, ");
                }
                append_vreg(&mut s, x);
            },
            (0xF, _, 0x5, 0x5) => {
                s.append("LD [I], ");
                proof {
                    reveal_strlit("LD [I], ");
                }
                append_vreg(&mut s, x);
            },
            (0xF, _, 0x6, 0x5) => {
                s.append("LD ");
                proof {
                    reveal_strlit("LD ");
                }
                append_vreg(&mut s, x);
                s.append(", [I]");
            },
            _ => {
                append_hex_prefixed(&mut s, nibs.0 as u16);
                s.append(" ");
                append_hex_prefixed(&mut s, nibs.1 as u16);
                s.append(" ");
                append_hex_prefixed(&mut s, nibs.2 as u16);
                s.append(" ");
                append_hex_prefixed(&mut s, nibs.3 as u16);
            },
        }
        s
    }
}

/// The single uppercase hex digit for `n`.
pub open spec fn hex_digit_seq(n: int) -> Seq<char> {
    if n == 0x0 {
        seq!['0']
    } else if n == 0x1 {
        seq!['1']
    } else if n == 0x2 {
        seq!['2']
    } else if n == 0x3 {
        seq!['3']
    } else if n == 0x4 {
        seq!['4']
    } else if n == 0x5 {
        seq!['5']
    } else if n == 0x6 {
        seq!['6']
    } else if n == 0x7 {
        seq!['7']
    } else if n == 0x8 {
        seq!['8']
    } else if n == 0x9 {
        seq!['9']
    } else if n == 0xA {
        seq!['A']
    } else if n == 0xB {
        seq!['B']
    } else if n == 0xC {
        seq!['C']
    } else if n == 0xD {
        seq!['D']
    } else if n == 0xE {
        seq!['E']
    } else {
        seq!['F']
    }
}

/// The uppercase hex rendering of `v` without leading zeroes (one digit
/// for values below 16).
pub open spec fn hex_seq(v: nat) -> Seq<char>
    decreases v,
{
    if v < 16 {
        hex_digit_seq(v as int)
    } else {
        hex_seq(v / 16) + hex_digit_seq((v % 16) as int)
    }
}

/// One uppercase hex digit as a string slice.
fn hex_digit_str(n: u8) -> (r: &'static str)
    requires
        n < 16,
    ensures
        r@ == hex_digit_seq(n as int),
{
    match n {
        0x0 => {
            proof {
                reveal_strlit("0");
            }
            "0"
        },
        0x1 => {
            proof {
                reveal_strlit("1");
            }
            "1"
        },
        0x2 => {
            proof {
                reveal_strlit("2");
            }
            "2"
        },
        0x3 => {
            proof {
                reveal_strlit("3");
            }
            "3"
        },
        0x4 => {
            proof {
                reveal_strlit("4");
            }
            "4"
        },
        0x5 => {
            proof {
                reveal_strlit("5");
            }
            "5"
        },
        0x6 => {
            proof {
                reveal_strlit("6");
            }
            "6"
        },
        0x7 => {
            proof {
                reveal_strlit("7");
            }
            "7"
        },
        0x8 => {
            proof {
                reveal_strlit("8");
            }
            "8"
        },
        0x9 => {
            proof {
                reveal_strlit("9");
            }
            "9"
        },
        0xA => {
            proof {
                reveal_strlit("A");
            }
            "A"
        },
        0xB => {
            proof {
                reveal_strlit("B");
            }
            "B"
        },
        0xC => {
            proof {
                reveal_strlit("C");
            }
            "C"
        },
        0xD => {
            proof {
                reveal_strlit("D");
            }
            "D"
        },
        0xE => {
            proof {
                reveal_strlit("E");
            }
            "E"
        },
        _ => {
            proof {
                reveal_strlit("F");
            }
            "F"
        },
    }
}

/// Appends the minimal-width uppercase hex rendering of `v`.
fn append_hex(s: &mut String, v: u16)
    ensures
        final(s)@ == old(s)@ + hex_seq(v as nat),
    decreases v,
{
    if v >= 16 {
        append_hex(s, v / 16);
    }
    let d = hex_digit_str((v % 16) as u8);
    s.append(d);
    proof {
        assert(s@ =~= old(s)@ + hex_seq(v as nat));
    }
}

/// Appends `0x` and the hex rendering of `v`.
fn append_hex_prefixed(s: &mut String, v: u16)
    ensures
        final(s)@ == old(s)@ + seq!['0', 'x'] + hex_seq(v as nat),
{
    s.append("0x");
    append_hex(s, v);
    proof {
        reveal_strlit("0x");
        assert(s@ =~= old(s)@ + seq!['0', 'x'] + hex_seq(v as nat));
    }
}

/// Appends a register operand: `V` and the register's hex digit.
fn append_vreg(s: &mut String, x: u8)
    requires
        x < 16,
    ensures
        final(s)@ == old(s)@ + seq!['V'] + hex_digit_seq(x as int),
{
    s.append("V");
    let d = hex_digit_str(x);
    s.append(d);
    proof {
        reveal_strlit("V");
        assert(s@ =~= old(s)@ + seq!['V'] + hex_digit_seq(x as int));
    }
}

} // verus!
