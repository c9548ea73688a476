//! Single-line and multi-line text fields: the composer draft and the inline
//! prompt's field, edited by characters with a caret between them.
use vstd::prelude::*;

verus! {

/// A text field and its caret, counted in characters.
pub struct Draft {
    pub text: Vec<char>,
    pub cursor: usize,
}

/// `s` with `ins` placed at position `at`.
pub open spec fn spliced(s: Seq<char>, at: int, ins: Seq<char>) -> Seq<char> {
    s.take(at) + ins + s.skip(at)
}

/// A pasted payload with `\r\n` and bare `\r` turned into `\n`.
pub open spec fn normalized(s: Seq<char>) -> Seq<char>
    decreases s.len(),
{
    if s.len() == 0 {
        s
    } else if s[0] == '\r' {
        if s.len() > 1 && s[1] == '\n' {
            seq!['\n'] + normalized(s.skip(2))
        } else {
            seq!['\n'] + normalized(s.skip(1))
        }
    } else {
        seq![s[0]] + normalized(s.skip(1))
    }
}

/// A pasted payload flattened onto one line: each line break (`\r\n`, `\r`
/// or `\n`) becomes one space.
pub open spec fn flattened(s: Seq<char>) -> Seq<char> {
    normalized(s).map_values(|c: char| if c == '\n' { ' ' } else { c })
}

impl Draft {
    /// The caret never sits past the end of the text.
    pub open spec fn wf(&self) -> bool {
        self.cursor <= self.text@.len()
    }

    /// An empty field.
    pub fn new() -> (r: Draft)
        ensures
            r.text@ == Seq::<char>::empty(),
            r.cursor == 0,
    {
        Draft { text: Vec::new(), cursor: 0 }
    }

    /// A field holding `text`, with the caret at its end.
    pub fn with_text(text: Vec<char>) -> (r: Draft)
        ensures
            r.text@ == text@,
            r.cursor == text@.len(),
    {
        let n = text.len();
        Draft { text, cursor: n }
    }

    /// Insert `ins` at the caret and move the caret past it.
    pub fn insert(&mut self, ins: &Vec<char>)
        requires
            old(self).wf(),
            old(self).text@.len() + ins@.len() <= usize::MAX,
        ensures
            final(self).wf(),
            final(self).text@ == spliced(old(self).text@, old(self).cursor as int, ins@),
            final(self).cursor == old(self).cursor + ins@.len(),
    {
        let at = self.cursor;
        let mut out: Vec<char> = Vec::new();
        let mut i: usize = 0;
        while i < at
            invariant
                at == self.cursor,
                self.wf(),
                i <= at,
                out@ == self.text@.take(i as int),
            decreases at - i,
        {
            out.push(self.text[i]);
            i = i + 1;
            assert(out@ =~= self.text@.take(i as int));
        }
        let mut j: usize = 0;
        while j < ins.len()
            invariant
                j <= ins@.len(),
                out@ == self.text@.take(at as int) + ins@.take(j as int),
            decreases ins.len() - j,
        {
            out.push(ins[j]);
            j = j + 1;
            assert(out@ =~= self.text@.take(at as int) + ins@.take(j as int));
        }
        let mut k: usize = at;
        while k < self.text.len()
            invariant
                at <= k <= self.text@.len(),
                out@ == self.text@.take(at as int) + ins@ + self.text@.subrange(at as int, k as int),
            decreases self.text.len() - k,
        {
            out.push(self.text[k]);
            k = k + 1;
            assert(out@ =~= self.text@.take(at as int) + ins@ + self.text@.subrange(
                at as int,
                k as int,
            ));
        }
        assert(ins@.take(ins@.len() as int) =~= ins@);
        assert(self.text@.subrange(at as int, self.text@.len() as int) =~= self.text@.skip(
            at as int,
        ));
        self.text = out;
        self.cursor = at + ins.len();
    }

    /// Insert one character at the caret.
    pub fn insert_char(&mut self, c: char)
        requires
            old(self).wf(),
            old(self).text@.len() < usize::MAX,
        ensures
            final(self).wf(),
            final(self).text@ == spliced(old(self).text@, old(self).cursor as int, seq![c]),
            final(self).cursor == old(self).cursor + 1,
    {
        let mut one: Vec<char> = Vec::new();
        one.push(c);
        assert(one@ =~= seq![c]);
        self.insert(&one);
    }

    /// Delete the character before the caret, if there is one.
    pub fn delete_before(&mut self)
        requires
            old(self).wf(),
        ensures
            final(self).wf(),
            old(self).cursor == 0 ==> *final(self) == *old(self),
            old(self).cursor > 0 ==> {
                &&& final(self).cursor == old(self).cursor - 1
                &&& final(self).text@ == old(self).text@.remove(old(self).cursor - 1)
            },
    {
        if self.cursor > 0 {
            let at = self.cursor - 1;
            self.text.remove(at);
            self.cursor = at;
        }
    }

    /// Move the caret one character left.
    pub fn left(&mut self)
        requires
            old(self).wf(),
        ensures
            final(self).wf(),
            final(self).text == old(self).text,
            final(self).cursor == (if old(self).cursor > 0 {
                old(self).cursor - 1
            } else {
                0
            }),
    {
        self.cursor = self.cursor.saturating_sub(1);
    }

    /// Move the caret one character right, stopping at the end.
    pub fn right(&mut self)
        requires
            old(self).wf(),
        ensures
            final(self).wf(),
            final(self).text == old(self).text,
            final(self).cursor == (if old(self).cursor < old(self).text@.len() {
                old(self).cursor + 1
            } else {
                old(self).text@.len() as int
            }),
    {
        if self.cursor < self.text.len() {
            self.cursor = self.cursor + 1;
        } else {
            self.cursor = self.text.len();
        }
    }

    /// Whether the field holds no text.
    pub fn is_empty(&self) -> (r: bool)
        ensures
            r == (self.text@.len() == 0),
    {
        self.text.len() == 0
    }
}

/// A pasted payload with its line endings normalised to `\n`.
pub fn normalize_paste(s: &Vec<char>) -> (r: Vec<char>)
    ensures
        r@ == normalized(s@),
        r@.len() <= s@.len(),
{
    let mut out: Vec<char> = Vec::new();
    let mut i: usize = 0;
    assert(s@.skip(0) =~= s@);
    assert(out@ + normalized(s@) =~= normalized(s@));
    while i < s.len()
        invariant
            i <= s@.len(),
            out@.len() <= i,
            normalized(s@) == out@ + normalized(s@.skip(i as int)),
        decreases s.len() - i,
    {
        let ghost rest = s@.skip(i as int);
        if s[i] == '\r' {
            out.push('\n');
            if i + 1 < s.len() && s[i + 1] == '\n' {
                assert(rest.skip(2) =~= s@.skip(i + 2));
                i = i + 2;
            } else {
                assert(rest.skip(1) =~= s@.skip(i + 1));
                i = i + 1;
            }
        } else {
            out.push(s[i]);
            assert(rest.skip(1) =~= s@.skip(i + 1));
            i = i + 1;
        }
        assert(normalized(s@) =~= out@ + normalized(s@.skip(i as int)));
    }
    out
}

/// A pasted payload flattened onto one line, for a field that draws one.
pub fn flatten_paste(s: &Vec<char>) -> (r: Vec<char>)
    ensures
        r@ == flattened(s@),
        r@.len() <= s@.len(),
{
    let n = normalize_paste(s);
    let mut out: Vec<char> = Vec::new();
    let mut i: usize = 0;
    while i < n.len()
        invariant
            i <= n@.len(),
            out@ == n@.take(i as int).map_values(|c: char| if c == '\n' { ' ' } else { c }),
        decreases n.len() - i,
    {
        let c = n[i];
        out.push(if c == '\n' { ' ' } else { c });
        i = i + 1;
        assert(out@ =~= n@.take(i as int).map_values(|c: char| if c == '\n' { ' ' } else { c }));
    }
    assert(n@.take(n@.len() as int) =~= n@);
    out
}

} // verus!
