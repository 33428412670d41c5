//! Translation of the small neutral markup subset used in reply messages
//! (bold, preformatted block, italics, written as HTML-style tags) into
//! Markdown-style markers, for transports that want Markdown.

use vstd::prelude::*;

verus! {

/// An italics tag `<i>` starts the sequence.
pub open spec fn tag_i_open(s: Seq<char>) -> bool {
    s.len() >= 3 && s[0] == '<' && s[1] == 'i' && s[2] == '>'
}

/// A closing italics tag `</i>` starts the sequence.
pub open spec fn tag_i_close(s: Seq<char>) -> bool {
    s.len() >= 4 && s[0] == '<' && s[1] == '/' && s[2] == 'i' && s[3] == '>'
}

/// A bold tag `<b>` starts the sequence.
pub open spec fn tag_b_open(s: Seq<char>) -> bool {
    s.len() >= 3 && s[0] == '<' && s[1] == 'b' && s[2] == '>'
}

/// A closing bold tag `</b>` starts the sequence.
pub open spec fn tag_b_close(s: Seq<char>) -> bool {
    s.len() >= 4 && s[0] == '<' && s[1] == '/' && s[2] == 'b' && s[3] == '>'
}

/// A preformatted-block tag `<pre>` starts the sequence.
pub open spec fn tag_pre_open(s: Seq<char>) -> bool {
    s.len() >= 5 && s[0] == '<' && s[1] == 'p' && s[2] == 'r' && s[3] == 'e' && s[4] == '>'
}

/// A closing preformatted-block tag `</pre>` starts the sequence.
pub open spec fn tag_pre_close(s: Seq<char>) -> bool {
    s.len() >= 6 && s[0] == '<' && s[1] == '/' && s[2] == 'p' && s[3] == 'r' && s[4] == 'e' && s[5]
        == '>'
}

/// The Markdown form of a marked-up text: each italics tag becomes `_`, each
/// bold tag becomes `*`, each preformatted tag becomes three backticks, and
/// every other character stays. Tags are replaced left to right; at any
/// position at most one tag can start, so the order of the rules does not
/// matter.
pub open spec fn markdown_of(s: Seq<char>) -> Seq<char>
    decreases s.len(),
{
    if tag_i_open(s) {
        seq!['_'] + markdown_of(s.skip(3))
    } else if tag_i_close(s) {
        seq!['_'] + markdown_of(s.skip(4))
    } else if tag_b_open(s) {
        seq!['*'] + markdown_of(s.skip(3))
    } else if tag_b_close(s) {
        seq!['*'] + markdown_of(s.skip(4))
    } else if tag_pre_open(s) {
        seq!['`', '`', '`'] + markdown_of(s.skip(5))
    } else if tag_pre_close(s) {
        seq!['`', '`', '`'] + markdown_of(s.skip(6))
    } else if s.len() == 0 {
        Seq::<char>::empty()
    } else {
        seq![s[0]] + markdown_of(s.skip(1))
    }
}

/// Rewrites the markup tags of `html` into Markdown markers, as
/// `markdown_of` describes.
pub fn html_to_markdown(html: &str) -> (r: String)
    ensures
        r@ == markdown_of(html@),
{
    let n = html.unicode_len();
    let mut out = String::new();
    let mut i: usize = 0;
    proof {
        assert(html@.skip(0) =~= html@);
    }
    while i < n
        invariant
            n == html@.len(),
            0 <= i <= n,
            markdown_of(html@) == out@ + markdown_of(html@.skip(i as int)),
        decreases n - i,
    {
        let ghost rest = html@.skip(i as int);
        proof {
            assert(forall|j: int| 0 <= j < rest.len() ==> rest[j] == html@[i + j]);
            reveal_strlit("_");
            reveal_strlit("*");
            reveal_strlit("```");
        }
        let rem = n - i;
        let c0 = html.get_char(i);
        if c0 == '<' && rem >= 3 && html.get_char(i + 1) == 'i' && html.get_char(i + 2) == '>' {
            out.append("_");
            proof {
                assert(rest.skip(3) =~= html@.skip(i + 3));
                assert(markdown_of(html@) =~= out@ + markdown_of(html@.skip(i + 3)));
            }
            i += 3;
        } else if c0 == '<' && rem >= 4 && html.get_char(i + 1) == '/' && html.get_char(i + 2)
            == 'i' && html.get_char(i + 3) == '>' {
            out.append("_");
            proof {
                assert(rest.skip(4) =~= html@.skip(i + 4));
                assert(markdown_of(html@) =~= out@ + markdown_of(html@.skip(i + 4)));
            }
            i += 4;
        } else if c0 == '<' && rem >= 3 && html.get_char(i + 1) == 'b' && html.get_char(i + 2)
            == '>' {
            out.append("*");
            proof {
                assert(rest.skip(3) =~= html@.skip(i + 3));
                assert(markdown_of(html@) =~= out@ + markdown_of(html@.skip(i + 3)));
            }
            i += 3;
        } else if c0 == '<' && rem >= 4 && html.get_char(i + 1) == '/' && html.get_char(i + 2)
            == 'b' && html.get_char(i + 3) == '>' {
            out.append("*");
            proof {
                assert(rest.skip(4) =~= html@.skip(i + 4));
                assert(markdown_of(html@) =~= out@ + markdown_of(html@.skip(i + 4)));
            }
            i += 4;
        } else if c0 == '<' && rem >= 5 && html.get_char(i + 1) == 'p' && html.get_char(i + 2)
            == 'r' && html.get_char(i + 3) == 'e' && html.get_char(i + 4) == '>' {
            out.append("```");
            proof {
                assert(rest.skip(5) =~= html@.skip(i + 5));
                assert(markdown_of(html@) =~= out@ + markdown_of(html@.skip(i + 5)));
            }
            i += 5;
        } else if c0 == '<' && rem >= 6 && html.get_char(i + 1) == '/' && html.get_char(i + 2)
            == 'p' && html.get_char(i + 3) == 'r' && html.get_char(i + 4) == 'e' && html.get_char(
            i + 5,
        ) == '>' {
            out.append("```");
            proof {
                assert(rest.skip(6) =~= html@.skip(i + 6));
                assert(markdown_of(html@) =~= out@ + markdown_of(html@.skip(i + 6)));
            }
            i += 6;
        } else {
            let piece = html.substring_char(i, i + 1);
            out.append(piece);
            proof {
                assert(piece@ =~= seq![rest[0]]);
                assert(rest.skip(1) =~= html@.skip(i + 1));
                assert(markdown_of(html@) =~= out@ + markdown_of(html@.skip(i + 1)));
            }
            i += 1;
        }
    }
    proof {
        assert(markdown_of(html@.skip(n as int)) =~= Seq::<char>::empty());
        assert(out@ =~= markdown_of(html@));
    }
    out
}

} // verus!
