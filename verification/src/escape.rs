//! HTML escaping for text interpolated into markup.
//!
//! Every player-supplied string (a display name, a platform id) passes through
//! [`escape_html`] before it is spliced into a page, so markup characters in
//! such a string cannot change the structure of the rendered document.

use vstd::prelude::*;

verus! {

/// What one character becomes in escaped HTML text: the four markup
/// characters turn into their named entities, everything else stays itself.
pub open spec fn escaped_char(c: char) -> Seq<char> {
    if c == '&' {
        "&amp;"@
    } else if c == '<' {
        "&lt;"@
    } else if c == '>' {
        "&gt;"@
    } else if c == '"' {
        "&quot;"@
    } else {
        seq![c]
    }
}

/// The HTML escaping of a whole text: each character replaced by
/// [`escaped_char`], in order.
pub open spec fn escape_seq(s: Seq<char>) -> Seq<char>
    decreases s.len(),
{
    if s.len() == 0 {
        Seq::empty()
    } else {
        escaped_char(s[0]) + escape_seq(s.drop_first())
    }
}

/// Escape a text for inclusion in HTML element content or in a
/// double-quoted attribute value.
pub fn escape_html(s: &str) -> (r: String)
    ensures
        r@ == escape_seq(s@),
{
    let n = s.unicode_len();
    let mut r = String::new();
    let mut i: usize = 0;
    proof {
        assert(s@.skip(0) =~= s@);
        assert(r@ + escape_seq(s@) =~= escape_seq(s@));
    }
    while i < n
        invariant
            n == s@.len(),
            i <= n,
            escape_seq(s@) == r@ + escape_seq(s@.skip(i as int)),
        decreases n - i,
    {
        let c = s.get_char(i);
        proof {
            assert(s@.skip(i as int)[0] == s@[i as int]);
            assert(s@.skip(i as int).drop_first() =~= s@.skip(i as int + 1));
        }
        if c == '&' {
            r.append("&amp;");
        } else if c == '<' {
            r.append("&lt;");
        } else if c == '>' {
            r.append("&gt;");
        } else if c == '"' {
            r.append("&quot;");
        } else {
            let piece = s.substring_char(i, i + 1);
            proof {
                assert(piece@ =~= seq![s@[i as int]]);
            }
            r.append(piece);
        }
        proof {
            assert(escape_seq(s@) =~= r@ + escape_seq(s@.skip(i as int + 1)));
        }
        i = i + 1;
    }
    proof {
        assert(s@.skip(n as int) =~= Seq::<char>::empty());
        assert(r@ + Seq::<char>::empty() =~= r@);
    }
    r
}

} // verus!
