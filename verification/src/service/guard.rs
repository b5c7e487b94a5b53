//! Decides which template bodies are handed to the engine.
//!
//! The engine parses and evaluates a body by recursion: over the blocks that
//! stand inside each other, inside one tag over its subexpressions in round
//! brackets and its array and object literals, and over partials that
//! include partials. Deep enough, any of them uses up the stack. A body is
//! therefore refused where
//!
//! - more than [`MAX_DEPTH`] blocks are open at once,
//! - more than [`MAX_DEPTH`] brackets are open at once in one tag, or
//! - a partial is called from inside an inline partial or a partial block,
//!   which is the one way in which partials can include each other.
//!
//! The body is read once, character by character, by the [`Scan`] below. It
//! follows the grammar of the engine as far as tags, strings, plain comments
//! and brackets go. Where the body holds what the scan does not follow (an
//! escaped `{{`, a raw block, a comment written with dashes, a square
//! bracket, a quoted name in a closing tag or a partial call), it stops
//! following and from there on counts what is opened without counting
//! anything as closed, and refuses every partial call: it then errs on the
//! side of refusing.

use vstd::prelude::*;
use vstd::std_specs::iter::IteratorSpec;

verus! {

/// The most blocks, and the most brackets within a tag, that may be open at
/// once.
pub const MAX_DEPTH: usize = 32;

/// Where in the body the scan stands.
#[derive(Clone, Copy, Debug, PartialEq, Eq, Structural)]
pub enum Mode {
    /// In text between tags.
    Text,
    /// After one `{` in text.
    Brace,
    /// Right after `{{`.
    Head,
    /// After `{{` and blanks or `~`.
    Lead,
    /// After the `#` that opens a block.
    Hash,
    /// After `{{{`.
    Triple,
    /// After `{{!`.
    Bang,
    /// In a comment.
    Comment,
    /// After a `}` in a comment.
    CommentClose,
    /// In a tag.
    Tag,
    /// After a `}` in a tag in which no bracket is open.
    Close,
    /// In a string within a tag.
    Quote,
    /// After a backslash in a string.
    Escape,
    /// No longer following the grammar.
    Loose,
}

/// What is known of a body after some of its characters were read.
#[derive(Clone, Copy, Debug, PartialEq, Eq, Structural)]
pub struct Scan {
    pub mode: Mode,
    /// In text: the last character was a backslash. After one `{`: a
    /// backslash stands before it.
    pub escaped: bool,
    /// The open tag is a closing tag or a partial call, whose names are
    /// quoted by rules of their own.
    pub bare: bool,
    /// The quote that opened the string.
    pub quote: char,
    /// The blocks that are open; once loose, the blocks that were opened.
    pub blocks: usize,
    /// The brackets that are open in the tag; once loose, the brackets that
    /// were opened.
    pub brackets: usize,
    /// How many blocks were open when the outermost open inline partial or
    /// partial block was opened, that block counted; 0 where none is open.
    pub shield: usize,
    /// Once loose: the last character was `{`.
    pub after_open: bool,
    /// Once loose: the last character was a `{` that no `{` stands before.
    pub lone: bool,
    /// Once loose: `{{` was read, and only blanks, `~` and `#` since.
    pub head: bool,
    /// The body is refused.
    pub refused: bool,
}

/// A character that the grammar skips between the parts of a tag.
pub open spec fn is_blank(c: char) -> bool {
    c == ' ' || c == '\t' || c == '\n' || c == '\r'
}

/// A blank, or the mark that trims blanks: what may stand between `{{` and
/// the character that says what kind of tag it is.
pub open spec fn is_lead(c: char) -> bool {
    is_blank(c) || c == '~'
}

fn blank(c: char) -> (b: bool)
    ensures
        b == is_blank(c),
{
    c == ' ' || c == '\t' || c == '\n' || c == '\r'
}

fn lead(c: char) -> (b: bool)
    ensures
        b == is_lead(c),
{
    blank(c) || c == '~'
}

impl Scan {
    /// Nothing was read yet.
    pub open spec fn start() -> Scan {
        Scan {
            mode: Mode::Text,
            escaped: false,
            bare: false,
            quote: '"',
            blocks: 0,
            brackets: 0,
            shield: 0,
            after_open: false,
            lone: false,
            head: false,
            refused: false,
        }
    }

    /// While the body is not refused, the counts are within the limit.
    pub open spec fn wf(self) -> bool {
        !self.refused ==> self.blocks <= MAX_DEPTH && self.brackets <= MAX_DEPTH
    }

    /// Refuses the body where a count has passed the limit.
    pub open spec fn settle(self) -> Scan {
        Scan {
            refused: self.refused || self.blocks > MAX_DEPTH || self.brackets > MAX_DEPTH,
            ..self
        }
    }

    /// Stops following the grammar at `c`; `head` says whether `{{` was
    /// just read.
    pub open spec fn loosen(self, c: char, head: bool) -> Scan {
        Scan { mode: Mode::Loose, after_open: c == '{', lone: false, head, ..self }
    }

    /// Reads `c` in text.
    pub open spec fn in_text(self, c: char) -> Scan {
        if c == '{' {
            Scan { mode: Mode::Brace, ..self }
        } else {
            Scan { escaped: c == '\\', ..self }
        }
    }

    /// Reads `c` after one `{`: a second one opens a tag, unless a backslash
    /// stands before the first.
    pub open spec fn in_brace(self, c: char) -> Scan {
        if c != '{' {
            Scan { mode: Mode::Text, escaped: c == '\\', ..self }
        } else if self.escaped {
            self.loosen(c, true)
        } else {
            Scan { mode: Mode::Head, escaped: false, ..self }
        }
    }

    /// Reads `c` right after `{{`: `!` opens a comment, a third `{` an
    /// unescaped expression or a raw block.
    pub open spec fn in_head(self, c: char) -> Scan {
        if c == '!' {
            Scan { mode: Mode::Bang, ..self }
        } else if c == '{' {
            Scan { mode: Mode::Triple, ..self }
        } else {
            self.in_lead(c)
        }
    }

    /// Reads the character that says what kind of tag it is: `#` opens a
    /// block, `/` closes one, `>` calls a partial.
    pub open spec fn in_lead(self, c: char) -> Scan {
        if is_lead(c) {
            Scan { mode: Mode::Lead, ..self }
        } else if c == '#' {
            Scan { mode: Mode::Hash, blocks: (self.blocks + 1) as usize, ..self }.settle()
        } else if c == '/' {
            Scan {
                mode: Mode::Tag,
                bare: true,
                blocks: if self.blocks > 0 {
                    (self.blocks - 1) as usize
                } else {
                    0
                },
                shield: if self.shield == self.blocks {
                    0
                } else {
                    self.shield
                },
                ..self
            }
        } else if c == '>' {
            if self.shield > 0 {
                Scan { refused: true, ..self }
            } else {
                Scan { mode: Mode::Tag, bare: true, ..self }
            }
        } else if c == '{' {
            Scan { mode: Mode::Tag, bare: false, ..self }
        } else {
            Scan { mode: Mode::Tag, bare: false, ..self }.in_tag(c)
        }
    }

    /// Reads `c` after the `#` of a block: `*` makes it an inline partial,
    /// `>` a partial block, which is a partial call as well.
    pub open spec fn in_hash(self, c: char) -> Scan {
        if is_blank(c) {
            self
        } else if c == '*' {
            Scan {
                mode: Mode::Tag,
                bare: false,
                shield: if self.shield == 0 {
                    self.blocks
                } else {
                    self.shield
                },
                ..self
            }
        } else if c == '>' {
            if self.shield > 0 {
                Scan { refused: true, ..self }
            } else {
                Scan { mode: Mode::Tag, bare: true, shield: self.blocks, ..self }
            }
        } else {
            Scan { mode: Mode::Tag, bare: false, ..self }.in_tag(c)
        }
    }

    /// Reads `c` after `{{{`: a fourth `{` opens a raw block.
    pub open spec fn in_triple(self, c: char) -> Scan {
        if c == '{' {
            self.loosen(c, true)
        } else {
            Scan { mode: Mode::Tag, bare: false, ..self }.in_tag(c)
        }
    }

    /// Reads `c` after `{{!`: a dash may open the comment that ends with
    /// dashes.
    pub open spec fn in_bang(self, c: char) -> Scan {
        if is_blank(c) {
            self
        } else if c == '-' {
            self.loosen(c, false)
        } else if c == '}' {
            Scan { mode: Mode::CommentClose, ..self }
        } else {
            Scan { mode: Mode::Comment, ..self }
        }
    }

    /// Reads `c` in a comment, which ends at the next `}}`.
    pub open spec fn in_comment(self, c: char) -> Scan {
        if c == '}' {
            Scan { mode: Mode::CommentClose, ..self }
        } else {
            Scan { mode: Mode::Comment, ..self }
        }
    }

    /// Reads `c` after a `}` in a comment.
    pub open spec fn in_comment_close(self, c: char) -> Scan {
        if c == '}' {
            Scan { mode: Mode::Text, escaped: false, ..self }
        } else {
            Scan { mode: Mode::Comment, ..self }
        }
    }

    /// Reads `c` in a tag: a quote opens a string, a bracket opens or
    /// closes, and a `}` with no bracket open may end the tag.
    pub open spec fn in_tag(self, c: char) -> Scan {
        if c == '"' || c == '\'' {
            if self.bare {
                self.loosen(c, false)
            } else {
                Scan { mode: Mode::Quote, quote: c, ..self }
            }
        } else if c == '(' || c == '{' {
            Scan { brackets: (self.brackets + 1) as usize, ..self }.settle()
        } else if c == '[' {
            Scan { brackets: (self.brackets + 1) as usize, ..self }.settle().loosen(c, false)
        } else if c == ')' || (c == '}' && self.brackets > 0) {
            Scan {
                brackets: if self.brackets > 0 {
                    (self.brackets - 1) as usize
                } else {
                    0
                },
                ..self
            }
        } else if c == '}' {
            Scan { mode: Mode::Close, ..self }
        } else {
            self
        }
    }

    /// Reads `c` after a `}` in a tag: a second one ends the tag.
    pub open spec fn in_close(self, c: char) -> Scan {
        if c == '}' {
            Scan { mode: Mode::Text, escaped: false, bare: false, brackets: 0, ..self }
        } else {
            Scan { mode: Mode::Tag, ..self }.in_tag(c)
        }
    }

    /// Reads `c` in a string, which ends at the quote that opened it.
    pub open spec fn in_quote(self, c: char) -> Scan {
        if c == '\\' {
            Scan { mode: Mode::Escape, ..self }
        } else if c == self.quote {
            Scan { mode: Mode::Tag, ..self }
        } else {
            self
        }
    }

    /// Reads `c` once loose: every `#` after `{{` opens a block, every `(`,
    /// `[` and single `{` a bracket, nothing closes, and a `>` after `{{`
    /// refuses the body.
    pub open spec fn in_loose(self, c: char) -> Scan {
        let block: int = if self.head && c == '#' {
            1
        } else {
            0
        };
        let bracket: int = if c == '(' || c == '[' {
            1
        } else {
            0
        };
        let brace: int = if self.lone && c != '{' {
            1
        } else {
            0
        };
        Scan {
            blocks: (self.blocks + block) as usize,
            brackets: (self.brackets + bracket + brace) as usize,
            after_open: c == '{',
            lone: c == '{' && !self.after_open,
            head: (self.after_open && c == '{') || (self.head && (is_lead(c) || c == '#')),
            refused: self.head && c == '>',
            ..self
        }.settle()
    }

    /// What is known once `c` was read as well. Once the body is refused,
    /// nothing changes any more.
    pub open spec fn step(self, c: char) -> Scan {
        if self.refused {
            self
        } else {
            match self.mode {
                Mode::Text => self.in_text(c),
                Mode::Brace => self.in_brace(c),
                Mode::Head => self.in_head(c),
                Mode::Lead => self.in_lead(c),
                Mode::Hash => self.in_hash(c),
                Mode::Triple => self.in_triple(c),
                Mode::Bang => self.in_bang(c),
                Mode::Comment => self.in_comment(c),
                Mode::CommentClose => self.in_comment_close(c),
                Mode::Tag => self.in_tag(c),
                Mode::Close => self.in_close(c),
                Mode::Quote => self.in_quote(c),
                Mode::Escape => Scan { mode: Mode::Quote, ..self },
                Mode::Loose => self.in_loose(c),
            }
        }
    }

    fn begin() -> (state: Scan)
        ensures
            state == Scan::start(),
            state.wf(),
    {
        Scan {
            mode: Mode::Text,
            escaped: false,
            bare: false,
            quote: '"',
            blocks: 0,
            brackets: 0,
            shield: 0,
            after_open: false,
            lone: false,
            head: false,
            refused: false,
        }
    }

    fn settled(self) -> (next: Scan)
        ensures
            next == self.settle(),
            next.wf(),
    {
        Scan {
            refused: self.refused || self.blocks > MAX_DEPTH || self.brackets > MAX_DEPTH,
            ..self
        }
    }

    fn loosened(self, c: char, head: bool) -> (next: Scan)
        requires
            self.wf(),
        ensures
            next == self.loosen(c, head),
            next.wf(),
    {
        Scan { mode: Mode::Loose, after_open: c == '{', lone: false, head, ..self }
    }

    fn read_lead(self, c: char) -> (next: Scan)
        requires
            self.wf(),
            !self.refused,
        ensures
            next == self.in_lead(c),
            next.wf(),
    {
        if lead(c) {
            Scan { mode: Mode::Lead, ..self }
        } else if c == '#' {
            Scan { mode: Mode::Hash, blocks: self.blocks + 1, ..self }.settled()
        } else if c == '/' {
            Scan {
                mode: Mode::Tag,
                bare: true,
                blocks: if self.blocks > 0 {
                    self.blocks - 1
                } else {
                    0
                },
                shield: if self.shield == self.blocks {
                    0
                } else {
                    self.shield
                },
                ..self
            }
        } else if c == '>' {
            if self.shield > 0 {
                Scan { refused: true, ..self }
            } else {
                Scan { mode: Mode::Tag, bare: true, ..self }
            }
        } else if c == '{' {
            Scan { mode: Mode::Tag, bare: false, ..self }
        } else {
            Scan { mode: Mode::Tag, bare: false, ..self }.read_tag(c)
        }
    }

    fn read_hash(self, c: char) -> (next: Scan)
        requires
            self.wf(),
            !self.refused,
        ensures
            next == self.in_hash(c),
            next.wf(),
    {
        if blank(c) {
            self
        } else if c == '*' {
            Scan {
                mode: Mode::Tag,
                bare: false,
                shield: if self.shield == 0 {
                    self.blocks
                } else {
                    self.shield
                },
                ..self
            }
        } else if c == '>' {
            if self.shield > 0 {
                Scan { refused: true, ..self }
            } else {
                Scan { mode: Mode::Tag, bare: true, shield: self.blocks, ..self }
            }
        } else {
            Scan { mode: Mode::Tag, bare: false, ..self }.read_tag(c)
        }
    }

    fn read_tag(self, c: char) -> (next: Scan)
        requires
            self.wf(),
            !self.refused,
        ensures
            next == self.in_tag(c),
            next.wf(),
    {
        if c == '"' || c == '\'' {
            if self.bare {
                self.loosened(c, false)
            } else {
                Scan { mode: Mode::Quote, quote: c, ..self }
            }
        } else if c == '(' || c == '{' {
            Scan { brackets: self.brackets + 1, ..self }.settled()
        } else if c == '[' {
            Scan { brackets: self.brackets + 1, ..self }.settled().loosened(c, false)
        } else if c == ')' || (c == '}' && self.brackets > 0) {
            Scan {
                brackets: if self.brackets > 0 {
                    self.brackets - 1
                } else {
                    0
                },
                ..self
            }
        } else if c == '}' {
            Scan { mode: Mode::Close, ..self }
        } else {
            self
        }
    }

    fn read_loose(self, c: char) -> (next: Scan)
        requires
            self.wf(),
            !self.refused,
        ensures
            next == self.in_loose(c),
            next.wf(),
    {
        let block: usize = if self.head && c == '#' {
            1
        } else {
            0
        };
        let bracket: usize = if c == '(' || c == '[' {
            1
        } else {
            0
        };
        let brace: usize = if self.lone && c != '{' {
            1
        } else {
            0
        };
        Scan {
            blocks: self.blocks + block,
            brackets: self.brackets + bracket + brace,
            after_open: c == '{',
            lone: c == '{' && !self.after_open,
            head: (self.after_open && c == '{') || (self.head && (lead(c) || c == '#')),
            refused: self.head && c == '>',
            ..self
        }.settled()
    }

    /// Reads `c`.
    fn advance(self, c: char) -> (next: Scan)
        requires
            self.wf(),
        ensures
            next == self.step(c),
            next.wf(),
    {
        if self.refused {
            return self;
        }
        match self.mode {
            Mode::Text => {
                if c == '{' {
                    Scan { mode: Mode::Brace, ..self }
                } else {
                    Scan { escaped: c == '\\', ..self }
                }
            },
            Mode::Brace => {
                if c != '{' {
                    Scan { mode: Mode::Text, escaped: c == '\\', ..self }
                } else if self.escaped {
                    self.loosened(c, true)
                } else {
                    Scan { mode: Mode::Head, escaped: false, ..self }
                }
            },
            Mode::Head => {
                if c == '!' {
                    Scan { mode: Mode::Bang, ..self }
                } else if c == '{' {
                    Scan { mode: Mode::Triple, ..self }
                } else {
                    self.read_lead(c)
                }
            },
            Mode::Lead => self.read_lead(c),
            Mode::Hash => self.read_hash(c),
            Mode::Triple => {
                if c == '{' {
                    self.loosened(c, true)
                } else {
                    Scan { mode: Mode::Tag, bare: false, ..self }.read_tag(c)
                }
            },
            Mode::Bang => {
                if blank(c) {
                    self
                } else if c == '-' {
                    self.loosened(c, false)
                } else if c == '}' {
                    Scan { mode: Mode::CommentClose, ..self }
                } else {
                    Scan { mode: Mode::Comment, ..self }
                }
            },
            Mode::Comment => {
                if c == '}' {
                    Scan { mode: Mode::CommentClose, ..self }
                } else {
                    Scan { mode: Mode::Comment, ..self }
                }
            },
            Mode::CommentClose => {
                if c == '}' {
                    Scan { mode: Mode::Text, escaped: false, ..self }
                } else {
                    Scan { mode: Mode::Comment, ..self }
                }
            },
            Mode::Tag => self.read_tag(c),
            Mode::Close => {
                if c == '}' {
                    Scan { mode: Mode::Text, escaped: false, bare: false, brackets: 0, ..self }
                } else {
                    Scan { mode: Mode::Tag, ..self }.read_tag(c)
                }
            },
            Mode::Quote => {
                if c == '\\' {
                    Scan { mode: Mode::Escape, ..self }
                } else if c == self.quote {
                    Scan { mode: Mode::Tag, ..self }
                } else {
                    self
                }
            },
            Mode::Escape => Scan { mode: Mode::Quote, ..self },
            Mode::Loose => self.read_loose(c),
        }
    }
}

/// What is known of `body` once all of it was read.
pub open spec fn scan(body: Seq<char>) -> Scan
    decreases body.len(),
{
    if body.len() == 0 {
        Scan::start()
    } else {
        scan(body.drop_last()).step(body.last())
    }
}

/// The bodies that are handed to the engine: those that the scan does not
/// refuse.
pub open spec fn engine_takes(body: Seq<char>) -> bool {
    !scan(body).refused
}

/// Whether `body` is handed to the engine.
pub fn is_taken(body: &str) -> (taken: bool)
    ensures
        taken == engine_takes(body@),
{
    let ghost text = body@;
    let mut chars = body.chars();
    let mut state = Scan::begin();
    let ghost mut at: int = 0;
    loop
        invariant
            text == body@,
            0 <= at <= text.len(),
            chars.remaining() == text.skip(at),
            state == scan(text.take(at)),
            state.wf(),
        decreases text.len() - at,
    {
        let ghost before = chars;
        let next = chars.next();
        proof {
            vstd::string::next_postcondition(&before, &chars, next);
        }
        match next {
            None => {
                assert(text.take(at) == text);
                return !state.refused;
            },
            Some(c) => {
                proof {
                    assert(c == text[at]);
                    assert(text.skip(at).drop_first() == text.skip(at + 1));
                    assert(text.take(at + 1).drop_last() == text.take(at));
                    assert(text.take(at + 1).last() == c);
                    at = at + 1;
                }
                state = state.advance(c);
            },
        }
    }
}

} // verus!
