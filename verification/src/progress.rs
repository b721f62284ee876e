//! The transfer progress line: bar geometry and rendering.
//!
//! The surrounding application probes the terminal, measures speed and
//! prints; everything it prints for a transfer in flight is computed
//! here. A bar is sized once from the terminal width and the filename;
//! each update renders one line of ASCII, truncated to the terminal.

use vstd::prelude::*;
use vstd::utf8::is_ascii_chars;

use crate::ascii::{ascii_bytes, ascii_to_string, chars_of_ascii};
use crate::format::{dec_bytes, lemma_dec_bytes_ascii, push_decimal, render_size, size_bytes};

verus! {

/// `a - b`, stopping at zero.
pub open spec fn sat_sub(a: nat, b: nat) -> nat {
    if a >= b {
        (a - b) as nat
    } else {
        0
    }
}

/// The bytes of an ASCII character sequence, one per character.
pub open spec fn bytes_of_chars(s: Seq<char>) -> Seq<u8> {
    s.map_values(|c: char| c as u8)
}

/// The width the bar itself may take: 47 columns and the filename are
/// reserved, the bar gets what remains up to 40 columns, and a cramped
/// terminal still gets a 20-column bar.
pub open spec fn spec_bar_width(name_len: nat, terminal_width: nat) -> nat {
    let reserved = 47 + name_len;
    if terminal_width > reserved + 10 {
        if terminal_width - reserved >= 40 {
            40
        } else {
            (terminal_width - reserved) as nat
        }
    } else {
        20
    }
}

/// `n` copies of one byte.
pub open spec fn repeat_byte(b: u8, n: nat) -> Seq<u8> {
    Seq::new(n, |i: int| b)
}

/// The bar at a given percentage: a `>` head advancing over `-`, full
/// `=` at the end.
pub open spec fn spec_bar(progress: nat, width: nat) -> Seq<u8> {
    let filled = progress * width / 100;
    if filled == 0 {
        seq![62u8] + repeat_byte(45, sat_sub(width, 1))
    } else if filled >= width {
        repeat_byte(61, width)
    } else {
        repeat_byte(61, sat_sub(filled, 1)) + seq![62u8] + repeat_byte(
            45,
            sat_sub((width - filled) as nat, 1),
        )
    }
}

/// The filename as shown: at most 15 characters, else the first 12 and
/// an ellipsis.
pub open spec fn spec_display_name(name: Seq<u8>) -> Seq<u8> {
    if name.len() > 15 {
        name.take(12) + seq![46u8, 46u8, 46u8]
    } else {
        name
    }
}

/// One full progress line before truncation: bar, percentage,
/// transferred of total, speed, filename.
pub open spec fn spec_full_line(
    progress: nat,
    bytes_transferred: nat,
    total_bytes: nat,
    speed: Seq<u8>,
    name: Seq<u8>,
    width: nat,
) -> Seq<u8> {
    seq![91u8] + spec_bar(progress, width) + seq![93u8, 32u8] + dec_bytes(progress) + seq![
        37u8,
        32u8,
        40u8,
    ] + size_bytes(bytes_transferred, true) + seq![47u8] + size_bytes(total_bytes, true) + seq![
        41u8,
        32u8,
    ] + speed + seq![32u8, 45u8, 32u8] + spec_display_name(name)
}

/// The line as printed: cut to the terminal with an ellipsis when too
/// long.
pub open spec fn spec_update_line(
    progress: nat,
    bytes_transferred: nat,
    total_bytes: nat,
    speed: Seq<u8>,
    name: Seq<u8>,
    width: nat,
    terminal_width: nat,
) -> Seq<u8> {
    let line = spec_full_line(progress, bytes_transferred, total_bytes, speed, name, width);
    if line.len() > terminal_width {
        line.take(sat_sub(terminal_width, 3) as int) + seq![46u8, 46u8, 46u8]
    } else {
        line
    }
}

/// The state of one transfer's progress display.
pub struct ProgressBar {
    pub filename: String,
    pub width: usize,
    pub terminal_width: usize,
}

impl ProgressBar {
    /// The geometry a constructed bar always has, and the ASCII filename
    /// rendering counts on.
    pub open spec fn wf(&self) -> bool {
        &&& 1 <= self.width <= 40
        &&& is_ascii_chars(self.filename@)
    }

    /// A bar for one file, sized to the terminal.
    pub fn new(filename: String, terminal_width: usize) -> (r: Self)
        requires
            is_ascii_chars(filename@),
            filename@.len() + 57 <= usize::MAX,
        ensures
            r.filename == filename,
            r.terminal_width == terminal_width,
            r.width == spec_bar_width(filename@.len(), terminal_width as nat),
            r.wf(),
    {
        let name_str = filename.as_str();
        proof {
            vstd::string::is_ascii_spec_bytes(name_str);
        }
        let name_len = name_str.len();
        let reserved = 47 + name_len;
        let available_for_bar = if terminal_width > reserved + 10 {
            let room = terminal_width - reserved;
            if room >= 40 {
                40
            } else {
                room
            }
        } else {
            20
        };
        ProgressBar { filename, width: available_for_bar, terminal_width }
    }

    /// Renders one update of the line: the bar at `progress` percent,
    /// the byte counts, the measured speed, and the filename, truncated
    /// to the terminal.
    pub fn render_update(
        &self,
        progress: u32,
        bytes_transferred: u64,
        total_bytes: u64,
        speed: &[u8],
    ) -> (r: String)
        requires
            self.wf(),
            progress <= 100,
            ascii_bytes(speed@),
        ensures
            r@ == chars_of_ascii(
                spec_update_line(
                    progress as nat,
                    bytes_transferred as nat,
                    total_bytes as nat,
                    speed@,
                    bytes_of_chars(self.filename@),
                    self.width as nat,
                    self.terminal_width as nat,
                ),
            ),
    {
        let name_str = self.filename.as_str();
        proof {
            vstd::string::is_ascii_spec_bytes(name_str);
        }
        let name = name_str.as_bytes();
        proof {
            assert(name@ =~= bytes_of_chars(self.filename@));
        }
        let ghost progress_digits = dec_bytes(progress as nat);
        let ghost speed_bytes = speed@;
        let ghost shown_name = spec_display_name(name@);
        let mut line: Vec<u8> = render_bar(progress, self.width);
        let ghost p1 = seq![91u8] + spec_bar(progress as nat, self.width as nat);
        line.push(93);
        line.push(32);
        let ghost p2 = p1 + seq![93u8, 32u8];
        proof {
            assert(line@ =~= p2);
            assert(ascii_bytes(line@));
        }
        push_decimal(&mut line, progress as u128);
        let ghost p3 = p2 + progress_digits;
        proof {
            lemma_dec_bytes_ascii(progress as nat);
            assert(ascii_bytes(line@));
        }
        line.push(37);
        line.push(32);
        line.push(40);
        let ghost p4 = p3 + seq![37u8, 32u8, 40u8];
        proof {
            assert(line@ =~= p4);
            assert(ascii_bytes(line@));
        }
        let transferred = render_size(bytes_transferred, true);
        line.extend_from_slice(transferred.as_slice());
        let ghost p5 = p4 + size_bytes(bytes_transferred as nat, true);
        line.push(47);
        let ghost p6 = p5 + seq![47u8];
        proof {
            assert(line@ =~= p6);
            assert(ascii_bytes(line@));
        }
        let total = render_size(total_bytes, true);
        line.extend_from_slice(total.as_slice());
        let ghost p7 = p6 + size_bytes(total_bytes as nat, true);
        line.push(41);
        line.push(32);
        let ghost p8 = p7 + seq![41u8, 32u8];
        proof {
            assert(line@ =~= p8);
            assert(ascii_bytes(line@));
        }
        line.extend_from_slice(speed);
        let ghost p9 = p8 + speed_bytes;
        line.push(32);
        line.push(45);
        line.push(32);
        let ghost p10 = p9 + seq![32u8, 45u8, 32u8];
        proof {
            assert(line@ =~= p10);
            assert(ascii_bytes(line@));
        }
        if name.len() > 15 {
            let head = vstd::slice::slice_subrange(name, 0, 12);
            line.extend_from_slice(head);
            line.push(46);
            line.push(46);
            line.push(46);
            proof {
                assert(shown_name =~= name@.take(12) + seq![46u8, 46u8, 46u8]);
                assert(line@ =~= p10 + shown_name);
            }
        } else {
            line.extend_from_slice(name);
        }
        let ghost full = spec_full_line(
            progress as nat,
            bytes_transferred as nat,
            total_bytes as nat,
            speed@,
            bytes_of_chars(self.filename@),
            self.width as nat,
        );
        proof {
            assert(line@ == p10 + shown_name);
            assert(full == p10 + shown_name);
            assert(ascii_bytes(line@));
        }
        if line.len() > self.terminal_width {
            let keep = if self.terminal_width >= 3 {
                self.terminal_width - 3
            } else {
                0
            };
            line.truncate(keep);
            line.push(46);
            line.push(46);
            line.push(46);
            proof {
                assert(line@ =~= full.take(
                    sat_sub(self.terminal_width as nat, 3) as int,
                ) + seq![46u8, 46u8, 46u8]);
                assert(ascii_bytes(line@));
            }
        }
        ascii_to_string(&line)
    }
}

/// The probed width of the terminal: the first probe that answered, or
/// 80 columns. The caller asks the device, the environment and the
/// terminal's own tools, in that order of trust.
pub fn get_terminal_width(
    device_width: Option<usize>,
    env_width: Option<usize>,
    tool_width: Option<usize>,
) -> (r: usize)
    ensures
        r == (match device_width {
            Some(w) => w,
            None => match env_width {
                Some(w) => w,
                None => match tool_width {
                    Some(w) => w,
                    None => 80usize,
                },
            },
        }),
{
    if let Some(w) = device_width {
        return w;
    }
    if let Some(w) = env_width {
        return w;
    }
    if let Some(w) = tool_width {
        return w;
    }
    80
}

/// The bar and its opening bracket, as bytes.
fn render_bar(progress: u32, width: usize) -> (r: Vec<u8>)
    requires
        progress <= 100,
        1 <= width <= 40,
    ensures
        r@ == seq![91u8] + spec_bar(progress as nat, width as nat),
        ascii_bytes(r@),
{
    let mut out: Vec<u8> = Vec::new();
    out.push(91);
    let scaled = progress as usize;
    proof {
        assert(scaled * width <= 4000) by (nonlinear_arith)
            requires
                scaled <= 100,
                width <= 40,
        ;
    }
    let filled: usize = scaled * width / 100;
    if filled == 0 {
        out.push(62);
        push_repeat(&mut out, 45, width - 1);
    } else if filled >= width {
        push_repeat(&mut out, 61, width);
    } else {
        push_repeat(&mut out, 61, filled - 1);
        out.push(62);
        push_repeat(&mut out, 45, width - filled - 1);
    }
    proof {
        assert(out@ =~= seq![91u8] + spec_bar(progress as nat, width as nat));
        assert(ascii_bytes(out@));
    }
    out
}

/// Appends `n` copies of one byte.
fn push_repeat(out: &mut Vec<u8>, b: u8, n: usize)
    ensures
        final(out)@ == old(out)@ + repeat_byte(b, n as nat),
{
    let mut i: usize = 0;
    while i < n
        invariant
            i <= n,
            out@ == old(out)@ + repeat_byte(b, i as nat),
        decreases n - i,
    {
        out.push(b);
        proof {
            assert(out@ =~= old(out)@ + repeat_byte(b, i as nat + 1));
        }
        i = i + 1;
    }
    proof {
        assert(final(out)@ =~= old(out)@ + repeat_byte(b, n as nat));
    }
}

} // verus!
