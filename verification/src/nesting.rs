//! How deep the elements of a document nest, found in one pass over its
//! bytes before the feed parser is let at it.
//!
//! The parser reads nested elements by recursion, so a small body that nests
//! deep would exhaust its stack. The pass follows the bytes token by token as
//! the parser's reader does: text, tags with quoted attribute values,
//! comments, CDATA sections, processing instructions and the document type
//! declaration. Where it stops following (an internal DTD subset, a `<!`
//! that opens none of these) it counts every `<` from there on and takes
//! nothing off, which can only overstate the depth.

use vstd::prelude::*;

verus! {

/// The deepest nesting that the feed parser is handed.
pub const MAX_NESTING: usize = 128;

/// Where the pass stands between two bytes.
#[derive(Debug, Clone, Copy, PartialEq, Eq, Structural)]
pub enum Mode {
    /// In character data, or at the start of the document.
    Text,
    /// Just behind a `<`.
    Open,
    /// Just behind `<!`.
    Bang,
    /// In a comment. `read` counts the bytes behind `<!`, up to 4; `dashes`
    /// counts the `-` that directly precede, up to 2.
    Comment { read: u8, dashes: u8 },
    /// In a CDATA section. `brackets` counts the `]` that directly precede,
    /// up to 2.
    CData { brackets: u8 },
    /// In a document type declaration without an internal subset so far.
    /// `quote` is the quotation mark that is open, or 0.
    Doctype { quote: u8 },
    /// In a processing instruction. `question` says whether a `?` directly
    /// precedes.
    Pi { question: bool },
    /// In a start tag or, with `closing`, an end tag. `quote` is the
    /// quotation mark that is open, or 0; `slash` says whether a `/` outside
    /// quotes directly precedes.
    Tag { closing: bool, quote: u8, slash: bool },
    /// No longer following the tokens: every `<` counts as one level more.
    Unfollowed,
}

/// The state of the pass: where it stands, how many elements are open, and
/// the most that ever were.
#[derive(Debug, Clone, Copy, PartialEq, Eq, Structural)]
pub struct Scan {
    pub mode: Mode,
    pub depth: usize,
    pub deepest: usize,
}

pub open spec fn is_quote(b: u8) -> bool {
    b == 0x22 || b == 0x27
}

/// One level more, never past what the counter holds.
pub open spec fn deeper(depth: usize) -> usize {
    if depth < usize::MAX {
        (depth + 1) as usize
    } else {
        depth
    }
}

/// One level less, never below none.
pub open spec fn shallower(depth: usize) -> usize {
    if depth > 0 {
        (depth - 1) as usize
    } else {
        depth
    }
}

/// The mode and the number of open elements behind one more byte.
pub open spec fn next(mode: Mode, depth: usize, b: u8) -> (Mode, usize) {
    match mode {
        Mode::Text => if b == 0x3c {
            (Mode::Open, depth)
        } else {
            (Mode::Text, depth)
        },
        Mode::Open => if b == 0x21 {
            (Mode::Bang, depth)
        } else if b == 0x3f {
            (Mode::Pi { question: true }, depth)
        } else if b == 0x2f {
            (Mode::Tag { closing: true, quote: 0, slash: false }, depth)
        } else if b == 0x3e {
            (Mode::Text, deeper(depth))
        } else if is_quote(b) {
            (Mode::Tag { closing: false, quote: b, slash: false }, deeper(depth))
        } else {
            (Mode::Tag { closing: false, quote: 0, slash: false }, deeper(depth))
        },
        Mode::Bang => if b == 0x2d {
            (Mode::Comment { read: 1, dashes: 1 }, depth)
        } else if b == 0x5b {
            (Mode::CData { brackets: 0 }, depth)
        } else if b == 0x44 || b == 0x64 {
            (Mode::Doctype { quote: 0 }, depth)
        } else {
            (Mode::Unfollowed, depth)
        },
        Mode::Comment { read, dashes } => if b == 0x3e && read >= 4 && dashes >= 2 {
            (Mode::Text, depth)
        } else {
            (
                Mode::Comment {
                    read: if read < 4 {
                        (read + 1) as u8
                    } else {
                        read
                    },
                    dashes: if b != 0x2d {
                        0
                    } else if dashes < 2 {
                        (dashes + 1) as u8
                    } else {
                        dashes
                    },
                },
                depth,
            )
        },
        Mode::CData { brackets } => if b == 0x3e && brackets >= 2 {
            (Mode::Text, depth)
        } else {
            (
                Mode::CData {
                    brackets: if b != 0x5d {
                        0
                    } else if brackets < 2 {
                        (brackets + 1) as u8
                    } else {
                        brackets
                    },
                },
                depth,
            )
        },
        Mode::Doctype { quote } => if quote != 0 {
            if b == quote {
                (Mode::Doctype { quote: 0 }, depth)
            } else {
                (mode, depth)
            }
        } else if is_quote(b) {
            (Mode::Doctype { quote: b }, depth)
        } else if b == 0x5b {
            (Mode::Unfollowed, depth)
        } else if b == 0x3e {
            (Mode::Text, depth)
        } else {
            (mode, depth)
        },
        Mode::Pi { question } => if b == 0x3e && question {
            (Mode::Text, depth)
        } else {
            (Mode::Pi { question: b == 0x3f }, depth)
        },
        Mode::Tag { closing, quote, slash } => if quote != 0 {
            if b == quote {
                (Mode::Tag { closing, quote: 0, slash: false }, depth)
            } else {
                (mode, depth)
            }
        } else if is_quote(b) {
            (Mode::Tag { closing, quote: b, slash: false }, depth)
        } else if b == 0x3e {
            (
                Mode::Text,
                if closing || slash {
                    shallower(depth)
                } else {
                    depth
                },
            )
        } else {
            (Mode::Tag { closing, quote: 0, slash: b == 0x2f }, depth)
        },
        Mode::Unfollowed => if b == 0x3c {
            (Mode::Unfollowed, deeper(depth))
        } else {
            (Mode::Unfollowed, depth)
        },
    }
}

impl Scan {
    /// The pass before the first byte.
    pub open spec fn start() -> Scan {
        Scan { mode: Mode::Text, depth: 0, deepest: 0 }
    }

    /// The pass behind one more byte.
    pub open spec fn fed(self, b: u8) -> Scan {
        let (mode, depth) = next(self.mode, self.depth, b);
        Scan {
            mode,
            depth,
            deepest: if depth > self.deepest {
                depth
            } else {
                self.deepest
            },
        }
    }

    /// The pass behind all of `bytes`.
    pub open spec fn over(bytes: Seq<u8>) -> Scan
        decreases bytes.len(),
    {
        if bytes.len() == 0 {
            Scan::start()
        } else {
            Scan::over(bytes.drop_last()).fed(bytes.last())
        }
    }

    pub fn new() -> (scan: Scan)
        ensures
            scan == Scan::start(),
    {
        Scan { mode: Mode::Text, depth: 0, deepest: 0 }
    }

    /// Takes one more byte.
    pub fn feed(self, b: u8) -> (scan: Scan)
        ensures
            scan == self.fed(b),
    {
        let depth = self.depth;
        let up = if depth < usize::MAX {
            depth + 1
        } else {
            depth
        };
        let down = if depth > 0 {
            depth - 1
        } else {
            depth
        };
        let quoting = b == 0x22 || b == 0x27;
        let (mode, depth) = match self.mode {
            Mode::Text => if b == 0x3c {
                (Mode::Open, depth)
            } else {
                (Mode::Text, depth)
            },
            Mode::Open => if b == 0x21 {
                (Mode::Bang, depth)
            } else if b == 0x3f {
                (Mode::Pi { question: true }, depth)
            } else if b == 0x2f {
                (Mode::Tag { closing: true, quote: 0, slash: false }, depth)
            } else if b == 0x3e {
                (Mode::Text, up)
            } else if quoting {
                (Mode::Tag { closing: false, quote: b, slash: false }, up)
            } else {
                (Mode::Tag { closing: false, quote: 0, slash: false }, up)
            },
            Mode::Bang => if b == 0x2d {
                (Mode::Comment { read: 1, dashes: 1 }, depth)
            } else if b == 0x5b {
                (Mode::CData { brackets: 0 }, depth)
            } else if b == 0x44 || b == 0x64 {
                (Mode::Doctype { quote: 0 }, depth)
            } else {
                (Mode::Unfollowed, depth)
            },
            Mode::Comment { read, dashes } => if b == 0x3e && read >= 4 && dashes >= 2 {
                (Mode::Text, depth)
            } else {
                let read: u8 = if read < 4 {
                    read + 1
                } else {
                    read
                };
                let dashes: u8 = if b != 0x2d {
                    0
                } else if dashes < 2 {
                    dashes + 1
                } else {
                    dashes
                };
                (Mode::Comment { read, dashes }, depth)
            },
            Mode::CData { brackets } => if b == 0x3e && brackets >= 2 {
                (Mode::Text, depth)
            } else {
                let brackets: u8 = if b != 0x5d {
                    0
                } else if brackets < 2 {
                    brackets + 1
                } else {
                    brackets
                };
                (Mode::CData { brackets }, depth)
            },
            Mode::Doctype { quote } => if quote != 0 {
                if b == quote {
                    (Mode::Doctype { quote: 0 }, depth)
                } else {
                    (self.mode, depth)
                }
            } else if quoting {
                (Mode::Doctype { quote: b }, depth)
            } else if b == 0x5b {
                (Mode::Unfollowed, depth)
            } else if b == 0x3e {
                (Mode::Text, depth)
            } else {
                (self.mode, depth)
            },
            Mode::Pi { question } => if b == 0x3e && question {
                (Mode::Text, depth)
            } else {
                (Mode::Pi { question: b == 0x3f }, depth)
            },
            Mode::Tag { closing, quote, slash } => if quote != 0 {
                if b == quote {
                    (Mode::Tag { closing, quote: 0, slash: false }, depth)
                } else {
                    (self.mode, depth)
                }
            } else if quoting {
                (Mode::Tag { closing, quote: b, slash: false }, depth)
            } else if b == 0x3e {
                if closing || slash {
                    (Mode::Text, down)
                } else {
                    (Mode::Text, depth)
                }
            } else {
                (Mode::Tag { closing, quote: 0, slash: b == 0x2f }, depth)
            },
            Mode::Unfollowed => if b == 0x3c {
                (Mode::Unfollowed, up)
            } else {
                (Mode::Unfollowed, depth)
            },
        };
        let deepest = if depth > self.deepest {
            depth
        } else {
            self.deepest
        };
        Scan { mode, depth, deepest }
    }
}

/// An upper bound on how deep the elements of a document nest: the most
/// elements that the pass ever finds open at once.
pub open spec fn nesting_bound(body: Seq<u8>) -> usize {
    Scan::over(body).deepest
}

/// Whether a document nests no deeper than the feed parser is handed.
pub open spec fn within_nesting(body: Seq<u8>) -> bool {
    nesting_bound(body) <= MAX_NESTING
}

/// The bound counts what was open at any point: it is never below the number
/// of elements open at the end, nor below the bound of any part of the
/// document read so far. So it holds of a document that the parser gives up
/// on halfway as of one that it reads to the end.
pub proof fn lemma_bound_covers_prefixes(body: Seq<u8>, read: int)
    requires
        0 <= read <= body.len(),
    ensures
        Scan::over(body).depth <= nesting_bound(body),
        nesting_bound(body.subrange(0, read)) <= nesting_bound(body),
    decreases body.len(),
{
    if body.len() > 0 {
        lemma_bound_covers_prefixes(body.drop_last(), 0);
    }
    if read == body.len() {
        assert(body.subrange(0, read) =~= body);
    } else {
        lemma_bound_covers_prefixes(body.drop_last(), read);
        assert(body.drop_last().subrange(0, read) =~= body.subrange(0, read));
    }
}

/// Computes the bound in one pass over the bytes.
pub fn nesting_depth(body: &[u8]) -> (deepest: usize)
    ensures
        deepest == nesting_bound(body@),
{
    let mut scan = Scan::new();
    let mut i: usize = 0;
    assert(body@.subrange(0, 0) =~= Seq::<u8>::empty());
    while i < body.len()
        invariant
            i <= body.len(),
            scan == Scan::over(body@.subrange(0, i as int)),
        decreases body.len() - i,
    {
        assert(body@.subrange(0, i + 1).drop_last() =~= body@.subrange(0, i as int));
        scan = scan.feed(body[i]);
        i = i + 1;
    }
    assert(body@.subrange(0, i as int) =~= body@);
    scan.deepest
}

} // verus!
