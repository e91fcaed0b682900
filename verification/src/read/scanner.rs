use vstd::prelude::*;

verus! {

broadcast use vstd::string::is_ascii_spec_bytes;

/// The position of the first byte at or after `i` that is not an ASCII
/// single quote, or the end of the input when only quotes remain.
pub open spec fn skip_quotes(s: Seq<char>, i: int) -> int
    decreases s.len() - i,
{
    if i < 0 || i >= s.len() {
        s.len() as int
    } else if s[i] == '\'' {
        skip_quotes(s, i + 1)
    } else {
        i
    }
}

/// The next character a scanner at position `i` sees: the first non-quote
/// character at or after `i`, if any.
pub open spec fn spec_peek(s: Seq<char>, i: int) -> Option<char> {
    if skip_quotes(s, i) < s.len() {
        Some(s[skip_quotes(s, i)])
    } else {
        None
    }
}

/// The position of a scanner at position `i` after one `pop`: one past the
/// character it saw, or the end of the input.
pub open spec fn spec_advance(s: Seq<char>, i: int) -> int {
    if skip_quotes(s, i) < s.len() {
        skip_quotes(s, i) + 1
    } else {
        s.len() as int
    }
}

/// The text with every ASCII single quote removed.
pub open spec fn unquoted(s: Seq<char>) -> Seq<char>
    decreases s.len(),
{
    if s.len() == 0 {
        Seq::empty()
    } else if s.first() == '\'' {
        unquoted(s.drop_first())
    } else {
        seq![s.first()] + unquoted(s.drop_first())
    }
}

/// Quote skipping never moves backwards, and never past the end.
pub broadcast proof fn lemma_skip_quotes_auto(s: Seq<char>, i: int)
    requires
        0 <= i <= s.len(),
    ensures
        i <= #[trigger] skip_quotes(s, i) <= s.len(),
    decreases s.len() - i,
{
    if i < s.len() && s[i] == '\'' {
        lemma_skip_quotes_auto(s, i + 1);
    }
}

/// What a scanner sees is determined by the input's unquoted text alone:
/// the character seen at `i` is the head of the unquoted remainder, and one
/// `pop` takes the unquoted remainder to its tail. Error offsets, by
/// contrast, count the quote characters that were skipped.
pub proof fn lemma_peek_unquoted(s: Seq<char>, i: int)
    requires
        0 <= i <= s.len(),
    ensures
        spec_peek(s, i) == (if unquoted(s.skip(i)).len() > 0 {
            Some(unquoted(s.skip(i)).first())
        } else {
            None::<char>
        }),
        unquoted(s.skip(spec_advance(s, i))) == (if unquoted(s.skip(i)).len() > 0 {
            unquoted(s.skip(i)).drop_first()
        } else {
            Seq::<char>::empty()
        }),
    decreases s.len() - i,
{
    if i == s.len() {
        assert(s.skip(i) =~= Seq::<char>::empty());
    } else if s[i] == '\'' {
        assert(s.skip(i).first() == s[i]);
        assert(s.skip(i).drop_first() =~= s.skip(i + 1));
        lemma_peek_unquoted(s, i + 1);
    } else {
        assert(s.skip(i).first() == s[i]);
        assert(s.skip(i).drop_first() =~= s.skip(i + 1));
        assert(unquoted(s.skip(i)) == seq![s[i]] + unquoted(s.skip(i + 1)));
        assert(unquoted(s.skip(i)).drop_first() =~= unquoted(s.skip(i + 1)));
    }
}

/// Inserting an ASCII single quote anywhere leaves the unquoted text as it
/// was: quotes are transparent to everything a scanner reports but offsets.
pub proof fn lemma_quote_insertion(s: Seq<char>, i: int)
    requires
        0 <= i <= s.len(),
    ensures
        unquoted(s.insert(i, '\'')) == unquoted(s),
    decreases i,
{
    let t = s.insert(i, '\'');
    if i == 0 {
        assert(t.first() == '\'');
        assert(t.drop_first() =~= s);
    } else {
        assert(t.first() == s.first());
        assert(t.drop_first() =~= s.drop_first().insert(i - 1, '\''));
        lemma_quote_insertion(s.drop_first(), i - 1);
        assert(unquoted(t) == unquoted(s));
    }
}


/// A consistent scanner's cursor lies within its input.
pub broadcast proof fn lemma_scanner_wf(scanner: Scanner)
    requires
        #[trigger] scanner.wf(),
    ensures
        0 <= scanner.at() <= scanner.text().len() <= usize::MAX,
{
}

/// A byte-indexed cursor over an ASCII string that transparently skips
/// ASCII single quote characters: both `peek` and `pop` pass over any run
/// of quotes, while `cursor` keeps reporting offsets into the original
/// string, quotes included.
#[derive(Debug)]
pub struct Scanner<'a> {
    input: &'a str,
    pos: usize,
}

impl<'a> Scanner<'a> {
    /// The scanner's input, as a sequence of characters.
    pub closed spec fn text(self) -> Seq<char> {
        self.input@
    }

    /// The scanner's current byte offset.
    pub closed spec fn at(self) -> int {
        self.pos as int
    }

    /// The cursor lies within the ASCII input.
    pub closed spec fn wf(self) -> bool {
        &&& self.input.is_ascii()
        &&& self.pos <= self.input@.len()
        &&& self.input@.len() <= usize::MAX
    }

    /// Creates a new scanner over an ASCII string, at offset 0.
    pub fn new(input: &'a str) -> (r: Scanner<'a>)
        requires
            input.is_ascii(),
        ensures
            r.wf(),
            r.text() == input@,
            r.at() == 0,
    {
        let bytes = input.as_bytes();
        let _ = bytes.len();
        proof {
            broadcast use vstd::slice::axiom_spec_len;
        }
        Scanner { input, pos: 0 }
    }

    /// Looks at the next non-quote character without consuming anything.
    pub fn peek(&self) -> (r: Option<char>)
        requires
            self.wf(),
        ensures
            r == spec_peek(self.text(), self.at()),
    {
        let len = self.input.as_bytes().len();
        proof {
            broadcast use vstd::slice::axiom_spec_len;
        }
        let mut i: usize = self.pos;
        while i < len
            invariant
                self.wf(),
                len == self.text().len(),
                self.pos <= i <= len,
                skip_quotes(self.text(), self.at()) == skip_quotes(self.text(), i as int),
            decreases len - i,
        {
            let c = self.input.get_char(i);
            if c != '\'' {
                return Some(c);
            }
            i = i + 1;
        }
        None
    }

    /// Consumes quotes up to the next other character and that character
    /// itself, returning it; `None` once only quotes remain.
    pub fn pop(&mut self) -> (r: Option<char>)
        requires
            old(self).wf(),
        ensures
            final(self).wf(),
            final(self).text() == old(self).text(),
            r == spec_peek(old(self).text(), old(self).at()),
            final(self).at() == spec_advance(old(self).text(), old(self).at()),
    {
        let len = self.input.as_bytes().len();
        proof {
            broadcast use vstd::slice::axiom_spec_len;
        }
        while self.pos < len
            invariant
                self.wf(),
                self.text() == old(self).text(),
                len == self.text().len(),
                old(self).at() <= self.at() <= len,
                skip_quotes(self.text(), old(self).at()) == skip_quotes(self.text(), self.at()),
            decreases len - self.pos,
        {
            let c = self.input.get_char(self.pos);
            self.pos = self.pos + 1;
            if c != '\'' {
                return Some(c);
            }
        }
        None
    }

    /// The current byte index in the original string.
    pub fn cursor(&self) -> (r: usize)
        ensures
            r == self.at(),
    {
        self.pos
    }

    /// True if everything but quotes has been consumed.
    pub fn is_done(&self) -> (r: bool)
        requires
            self.wf(),
        ensures
            r == (spec_peek(self.text(), self.at()) is None),
    {
        self.peek().is_none()
    }
}

} // verus!
