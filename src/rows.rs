use vstd::prelude::*;
use crate::contents::push_char;

verus! {

/// The text cut at each '\n': one more piece than there are line feeds.
pub open spec fn pieces(s: Seq<char>) -> Seq<Seq<char>>
    decreases s.len(),
{
    if s.len() == 0 {
        seq![Seq::empty()]
    } else {
        let p = pieces(s.drop_last());
        if s.last() == '\n' {
            p.push(Seq::empty())
        } else {
            p.update(p.len() - 1, p.last().push(s.last()))
        }
    }
}

/// A line without the '\r' of a "\r\n" ending.
pub open spec fn strip_cr(line: Seq<char>) -> Seq<char> {
    if line.len() > 0 && line.last() == '\r' {
        line.drop_last()
    } else {
        line
    }
}

/// The lines of a text: split at "\n" and "\r\n", without those endings;
/// a final ending starts no extra empty line, and a '\r' without a '\n'
/// after it stays in its line.
pub open spec fn lines_of(s: Seq<char>) -> Seq<Seq<char>> {
    let p = pieces(s);
    let ended = p.drop_last().map_values(|l: Seq<char>| strip_cr(l));
    if p.last().len() == 0 {
        ended
    } else {
        ended.push(p.last())
    }
}

proof fn lemma_pieces_nonempty(s: Seq<char>)
    ensures
        pieces(s).len() >= 1,
    decreases s.len(),
{
    if s.len() > 0 {
        lemma_pieces_nonempty(s.drop_last());
    }
}

/// The rows of a loaded text; they do not change once loaded.
pub struct EditorRows {
    row_contents: Vec<String>,
}

impl View for EditorRows {
    type V = Seq<Seq<char>>;

    closed spec fn view(&self) -> Seq<Seq<char>> {
        self.row_contents@.map_values(|r: String| r@)
    }
}

impl EditorRows {
    /// No rows at all.
    pub fn new() -> (r: EditorRows)
        ensures
            r@ == Seq::<Seq<char>>::empty(),
    {
        let r = EditorRows { row_contents: Vec::new() };
        assert(r@ =~= Seq::<Seq<char>>::empty());
        r
    }

    /// The lines of `contents`, in order, empty lines kept.
    pub fn from_text(contents: &str) -> (r: EditorRows)
        ensures
            r@ == lines_of(contents@),
    {
        broadcast use vstd::string::group_string_axioms;

        let ghost s = contents@;
        let mut done: Vec<String> = Vec::new();
        let mut cur = String::new();
        // a '\r' held back until the next character shows whether it ends the line
        let mut held_cr = false;
        for c in it: contents.chars()
            invariant
                it.seq() == s,
                ({
                    let p = pieces(s.take(it.index()));
                    &&& p.len() == done@.len() + 1
                    &&& forall|k: int| 0 <= k < done@.len() ==> #[trigger] done@[k]@ == strip_cr(p[k])
                    &&& p.last() == if held_cr { cur@.push('\r') } else { cur@ }
                    &&& !held_cr ==> cur@.len() == 0 || cur@.last() != '\r'
                }),
        {
            let ghost i = it.index();
            let ghost p0 = pieces(s.take(i));
            let ghost cur0 = cur@;
            let ghost done0 = done@;
            let ghost held0 = held_cr;
            proof {
                lemma_pieces_nonempty(s.take(i));
                assert(s.take(i + 1).drop_last() =~= s.take(i));
                assert(c == s[i]);
            }
            if c == '\n' {
                done.push(cur);
                cur = String::new();
                held_cr = false;
            } else {
                if held_cr {
                    push_char(&mut cur, '\r');
                }
                if c == '\r' {
                    held_cr = true;
                } else {
                    push_char(&mut cur, c);
                    held_cr = false;
                }
            }
            proof {
                let p1 = pieces(s.take(i + 1));
                assert(s.take(i + 1).last() == c);
                if c == '\n' {
                    assert(p1 == p0.push(Seq::empty()));
                    assert(strip_cr(p0.last()) =~= cur0);
                    assert(done@ == done0.push(done@[done0.len() as int]));
                    assert forall|k: int| 0 <= k < done@.len() implies #[trigger] done@[k]@ == strip_cr(p1[k]) by {
                        if k < done0.len() {
                            assert(done@[k] == done0[k]);
                        }
                    }
                } else {
                    assert(p1 == p0.update(p0.len() - 1, p0.last().push(c)));
                    assert(p1.last() == p0.last().push(c));
                    assert(done@ == done0);
                    assert forall|k: int| 0 <= k < done@.len() implies #[trigger] done@[k]@ == strip_cr(p1[k]) by {
                        assert(p1[k] == p0[k]);
                    }
                    if held0 {
                        if c == '\r' {
                            assert(cur@ =~= cur0.push('\r'));
                        } else {
                            assert(cur@ =~= cur0.push('\r').push(c));
                        }
                    } else {
                        if c == '\r' {
                            assert(cur@ =~= cur0);
                        } else {
                            assert(cur@ =~= cur0.push(c));
                        }
                    }
                }
            }
        }
        if held_cr {
            push_char(&mut cur, '\r');
        }
        proof {
            assert(s.take(s.len() as int) =~= s);
        }
        if cur.unicode_len() > 0 {
            done.push(cur);
        }
        let r = EditorRows { row_contents: done };
        assert(r@ =~= lines_of(s));
        r
    }

    pub fn number_of_rows(&self) -> (n: usize)
        ensures
            n == self@.len(),
    {
        self.row_contents.len()
    }

    /// Row `n`, which must exist.
    pub fn get_row(&self, n: usize) -> (r: &str)
        requires
            n < self@.len(),
        ensures
            r@ == self@[n as int],
    {
        self.row_contents[n].as_str()
    }
}

} // verus!
