//! Source bytes to tokens.
//!
//! Identifiers are `[A-Za-z_][A-Za-z0-9_]*`, labels are `'` followed by an
//! identifier, numbers take an optional `0x`, `0o` or `0b` prefix and an
//! optional fraction or exponent, and string, character and template
//! literals accept the escapes `\n \r \t \\ \' \" \0 \xNN \u{...}`.
//! Whitespace and `//` line comments separate tokens.
use vstd::prelude::*;
use crate::token::{Delimiter, Kind, NumberKind, ParseError, Span, Token};

verus! {

pub open spec fn is_digit(b: u8) -> bool {
    48 <= b <= 57
}

pub open spec fn is_ident_start(b: u8) -> bool {
    (65 <= b <= 90) || (97 <= b <= 122) || b == 95
}

pub open spec fn is_ident_continue(b: u8) -> bool {
    is_ident_start(b) || is_digit(b)
}

pub open spec fn is_space(b: u8) -> bool {
    b == 32 || b == 9 || b == 10 || b == 13
}

/// A byte that is a punctuation token on its own.
pub open spec fn is_punct_byte(b: u8) -> bool {
    b == 40 || b == 41 || b == 123 || b == 125 || b == 91 || b == 93 || b == 44 || b == 58 || b == 46 || b == 59 || b == 61 || b == 60 || b == 62 || b == 43 || b == 45 || b == 42 || b == 47 || b == 37 || b == 33 || b == 124 || b == 38 || b == 35 || b == 63
}

/// A byte that can start or continue a token without quotes: whitespace, an
/// identifier or number byte, or punctuation.
pub open spec fn plain_byte(b: u8) -> bool {
    is_space(b) || is_ident_continue(b) || is_punct_byte(b)
}

/// `t` is an identifier: a start byte, then continue bytes.
pub open spec fn is_ident_text(t: Seq<u8>) -> bool {
    t.len() > 0 && is_ident_start(t[0]) && forall|k: int| 1 <= k < t.len() ==> is_ident_continue(#[trigger] t[k])
}

/// `t` is enclosed in the quote byte `q`.
pub open spec fn is_quoted(t: Seq<u8>, q: u8) -> bool {
    t.len() >= 2 && t[0] == q && t[t.len() - 1] == q
}

/// The text of a token agrees with its kind.
pub open spec fn token_text_ok(t: Seq<u8>, k: Kind) -> bool {
    match k {
        Kind::Ident => is_ident_text(t) && keyword_kind(t) is None,
        Kind::Label => t.len() >= 2 && t[0] == 39 && is_ident_text(t.subrange(1, t.len() as int)),
        Kind::Number(_) => t.len() > 0 && is_digit(t[0]),
        Kind::LitStr => is_quoted(t, 34),
        Kind::LitChar => is_quoted(t, 39),
        Kind::LitTemplate => is_quoted(t, 96),
        _ => keyword_kind(t) == Some(k) || punct_text(k) == Some(t),
    }
}

/// A token lies within the source, is not empty, and its text agrees with
/// its kind.
pub open spec fn token_ok(src: Seq<u8>, tok: Token) -> bool {
    &&& tok.span.start < tok.span.end <= src.len()
    &&& token_text_ok(src.subrange(tok.span.start as int, tok.span.end as int), tok.kind)
}

/// Every token is well formed, and tokens follow each other in the source
/// without overlapping.
pub open spec fn tokens_ok(src: Seq<u8>, toks: Seq<Token>) -> bool {
    &&& forall|i: int| 0 <= i < toks.len() ==> token_ok(src, #[trigger] toks[i])
    &&& forall|i: int| 0 <= i < toks.len() - 1 ==> #[trigger] toks[i].span.end <= toks[i + 1].span.start
}

/// The keyword spelled by `t`, if any.
pub open spec fn keyword_kind(t: Seq<u8>) -> Option<Kind> {
    if t == seq![115u8, 101u8, 108u8, 102u8] {
        Some(Kind::Self_)
    } else if t == seq![102u8, 110u8] {
        Some(Kind::Fn)
    } else if t == seq![105u8, 115u8] {
        Some(Kind::Is)
    } else if t == seq![110u8, 111u8, 116u8] {
        Some(Kind::Not)
    } else if t == seq![101u8, 110u8, 117u8, 109u8] {
        Some(Kind::Enum)
    } else if t == seq![115u8, 116u8, 114u8, 117u8, 99u8, 116u8] {
        Some(Kind::Struct)
    } else if t == seq![105u8, 102u8] {
        Some(Kind::If)
    } else if t == seq![109u8, 97u8, 116u8, 99u8, 104u8] {
        Some(Kind::Match)
    } else if t == seq![101u8, 108u8, 115u8, 101u8] {
        Some(Kind::Else)
    } else if t == seq![108u8, 101u8, 116u8] {
        Some(Kind::Let)
    } else if t == seq![117u8, 115u8, 101u8] {
        Some(Kind::Use)
    } else if t == seq![119u8, 104u8, 105u8, 108u8, 101u8] {
        Some(Kind::While)
    } else if t == seq![108u8, 111u8, 111u8, 112u8] {
        Some(Kind::Loop)
    } else if t == seq![102u8, 111u8, 114u8] {
        Some(Kind::For)
    } else if t == seq![105u8, 110u8] {
        Some(Kind::In)
    } else if t == seq![98u8, 114u8, 101u8, 97u8, 107u8] {
        Some(Kind::Break)
    } else if t == seq![121u8, 105u8, 101u8, 108u8, 100u8] {
        Some(Kind::Yield)
    } else if t == seq![114u8, 101u8, 116u8, 117u8, 114u8, 110u8] {
        Some(Kind::Return)
    } else if t == seq![97u8, 119u8, 97u8, 105u8, 116u8] {
        Some(Kind::Await)
    } else if t == seq![97u8, 115u8, 121u8, 110u8, 99u8] {
        Some(Kind::Async)
    } else if t == seq![115u8, 101u8, 108u8, 101u8, 99u8, 116u8] {
        Some(Kind::Select)
    } else if t == seq![100u8, 101u8, 102u8, 97u8, 117u8, 108u8, 116u8] {
        Some(Kind::Default)
    } else if t == seq![105u8, 109u8, 112u8, 108u8] {
        Some(Kind::Impl)
    } else if t == seq![116u8, 114u8, 117u8, 101u8] {
        Some(Kind::True)
    } else if t == seq![102u8, 97u8, 108u8, 115u8, 101u8] {
        Some(Kind::False)
    } else if t == seq![95u8] {
        Some(Kind::Underscore)
    } else {
        None
    }
}

/// The text of a punctuation token kind.
pub open spec fn punct_text(k: Kind) -> Option<Seq<u8>> {
    match k {
        Kind::Scope => Some(seq![58u8, 58u8]),
        Kind::DotDot => Some(seq![46u8, 46u8]),
        Kind::EqEq => Some(seq![61u8, 61u8]),
        Kind::Neq => Some(seq![33u8, 61u8]),
        Kind::Lte => Some(seq![60u8, 61u8]),
        Kind::Gte => Some(seq![62u8, 61u8]),
        Kind::AddAssign => Some(seq![43u8, 61u8]),
        Kind::SubAssign => Some(seq![45u8, 61u8]),
        Kind::MulAssign => Some(seq![42u8, 61u8]),
        Kind::DivAssign => Some(seq![47u8, 61u8]),
        Kind::And => Some(seq![38u8, 38u8]),
        Kind::Or => Some(seq![124u8, 124u8]),
        Kind::Rocket => Some(seq![61u8, 62u8]),
        Kind::QuestionQuestion => Some(seq![63u8, 63u8]),
        Kind::Open(Delimiter::Parenthesis) => Some(seq![40u8]),
        Kind::Close(Delimiter::Parenthesis) => Some(seq![41u8]),
        Kind::Open(Delimiter::Brace) => Some(seq![123u8]),
        Kind::Close(Delimiter::Brace) => Some(seq![125u8]),
        Kind::Open(Delimiter::Bracket) => Some(seq![91u8]),
        Kind::Close(Delimiter::Bracket) => Some(seq![93u8]),
        Kind::Comma => Some(seq![44u8]),
        Kind::Colon => Some(seq![58u8]),
        Kind::Dot => Some(seq![46u8]),
        Kind::SemiColon => Some(seq![59u8]),
        Kind::Eq => Some(seq![61u8]),
        Kind::Lt => Some(seq![60u8]),
        Kind::Gt => Some(seq![62u8]),
        Kind::Add => Some(seq![43u8]),
        Kind::Sub => Some(seq![45u8]),
        Kind::Mul => Some(seq![42u8]),
        Kind::Div => Some(seq![47u8]),
        Kind::Rem => Some(seq![37u8]),
        Kind::Bang => Some(seq![33u8]),
        Kind::Pipe => Some(seq![124u8]),
        Kind::Amp => Some(seq![38u8]),
        Kind::Hash => Some(seq![35u8]),
        Kind::Try => Some(seq![63u8]),
        _ => None,
    }
}

/// The keyword spelled by `src[s..e]`, if any.
pub fn keyword_at(src: &[u8], s: usize, e: usize) -> (r: Option<Kind>)
    requires
        s <= e <= src@.len(),
    ensures
        r == keyword_kind(src@.subrange(s as int, e as int)),
{
    let ghost t = src@.subrange(s as int, e as int);
    let n = e - s;
    if n == 4 && src[s + 0] == 115 && src[s + 1] == 101 && src[s + 2] == 108 && src[s + 3] == 102 {
        assert(t =~= seq![115u8, 101u8, 108u8, 102u8]);
        return Some(Kind::Self_);
    }
    assert(t != seq![115u8, 101u8, 108u8, 102u8]) by {
        let w = seq![115u8, 101u8, 108u8, 102u8];
        if t == w {
            assert(w.len() == 4);
            assert(w[0] == 115u8 && t[0] == src@[s + 0]);
            assert(w[1] == 101u8 && t[1] == src@[s + 1]);
            assert(w[2] == 108u8 && t[2] == src@[s + 2]);
            assert(w[3] == 102u8 && t[3] == src@[s + 3]);
        }
    }
    if n == 2 && src[s + 0] == 102 && src[s + 1] == 110 {
        assert(t =~= seq![102u8, 110u8]);
        return Some(Kind::Fn);
    }
    assert(t != seq![102u8, 110u8]) by {
        let w = seq![102u8, 110u8];
        if t == w {
            assert(w.len() == 2);
            assert(w[0] == 102u8 && t[0] == src@[s + 0]);
            assert(w[1] == 110u8 && t[1] == src@[s + 1]);
        }
    }
    if n == 2 && src[s + 0] == 105 && src[s + 1] == 115 {
        assert(t =~= seq![105u8, 115u8]);
        return Some(Kind::Is);
    }
    assert(t != seq![105u8, 115u8]) by {
        let w = seq![105u8, 115u8];
        if t == w {
            assert(w.len() == 2);
            assert(w[0] == 105u8 && t[0] == src@[s + 0]);
            assert(w[1] == 115u8 && t[1] == src@[s + 1]);
        }
    }
    if n == 3 && src[s + 0] == 110 && src[s + 1] == 111 && src[s + 2] == 116 {
        assert(t =~= seq![110u8, 111u8, 116u8]);
        return Some(Kind::Not);
    }
    assert(t != seq![110u8, 111u8, 116u8]) by {
        let w = seq![110u8, 111u8, 116u8];
        if t == w {
            assert(w.len() == 3);
            assert(w[0] == 110u8 && t[0] == src@[s + 0]);
            assert(w[1] == 111u8 && t[1] == src@[s + 1]);
            assert(w[2] == 116u8 && t[2] == src@[s + 2]);
        }
    }
    if n == 4 && src[s + 0] == 101 && src[s + 1] == 110 && src[s + 2] == 117 && src[s + 3] == 109 {
        assert(t =~= seq![101u8, 110u8, 117u8, 109u8]);
        return Some(Kind::Enum);
    }
    assert(t != seq![101u8, 110u8, 117u8, 109u8]) by {
        let w = seq![101u8, 110u8, 117u8, 109u8];
        if t == w {
            assert(w.len() == 4);
            assert(w[0] == 101u8 && t[0] == src@[s + 0]);
            assert(w[1] == 110u8 && t[1] == src@[s + 1]);
            assert(w[2] == 117u8 && t[2] == src@[s + 2]);
            assert(w[3] == 109u8 && t[3] == src@[s + 3]);
        }
    }
    if n == 6 && src[s + 0] == 115 && src[s + 1] == 116 && src[s + 2] == 114 && src[s + 3] == 117 && src[s + 4] == 99 && src[s + 5] == 116 {
        assert(t =~= seq![115u8, 116u8, 114u8, 117u8, 99u8, 116u8]);
        return Some(Kind::Struct);
    }
    assert(t != seq![115u8, 116u8, 114u8, 117u8, 99u8, 116u8]) by {
        let w = seq![115u8, 116u8, 114u8, 117u8, 99u8, 116u8];
        if t == w {
            assert(w.len() == 6);
            assert(w[0] == 115u8 && t[0] == src@[s + 0]);
            assert(w[1] == 116u8 && t[1] == src@[s + 1]);
            assert(w[2] == 114u8 && t[2] == src@[s + 2]);
            assert(w[3] == 117u8 && t[3] == src@[s + 3]);
            assert(w[4] == 99u8 && t[4] == src@[s + 4]);
            assert(w[5] == 116u8 && t[5] == src@[s + 5]);
        }
    }
    if n == 2 && src[s + 0] == 105 && src[s + 1] == 102 {
        assert(t =~= seq![105u8, 102u8]);
        return Some(Kind::If);
    }
    assert(t != seq![105u8, 102u8]) by {
        let w = seq![105u8, 102u8];
        if t == w {
            assert(w.len() == 2);
            assert(w[0] == 105u8 && t[0] == src@[s + 0]);
            assert(w[1] == 102u8 && t[1] == src@[s + 1]);
        }
    }
    if n == 5 && src[s + 0] == 109 && src[s + 1] == 97 && src[s + 2] == 116 && src[s + 3] == 99 && src[s + 4] == 104 {
        assert(t =~= seq![109u8, 97u8, 116u8, 99u8, 104u8]);
        return Some(Kind::Match);
    }
    assert(t != seq![109u8, 97u8, 116u8, 99u8, 104u8]) by {
        let w = seq![109u8, 97u8, 116u8, 99u8, 104u8];
        if t == w {
            assert(w.len() == 5);
            assert(w[0] == 109u8 && t[0] == src@[s + 0]);
            assert(w[1] == 97u8 && t[1] == src@[s + 1]);
            assert(w[2] == 116u8 && t[2] == src@[s + 2]);
            assert(w[3] == 99u8 && t[3] == src@[s + 3]);
            assert(w[4] == 104u8 && t[4] == src@[s + 4]);
        }
    }
    if n == 4 && src[s + 0] == 101 && src[s + 1] == 108 && src[s + 2] == 115 && src[s + 3] == 101 {
        assert(t =~= seq![101u8, 108u8, 115u8, 101u8]);
        return Some(Kind::Else);
    }
    assert(t != seq![101u8, 108u8, 115u8, 101u8]) by {
        let w = seq![101u8, 108u8, 115u8, 101u8];
        if t == w {
            assert(w.len() == 4);
            assert(w[0] == 101u8 && t[0] == src@[s + 0]);
            assert(w[1] == 108u8 && t[1] == src@[s + 1]);
            assert(w[2] == 115u8 && t[2] == src@[s + 2]);
            assert(w[3] == 101u8 && t[3] == src@[s + 3]);
        }
    }
    if n == 3 && src[s + 0] == 108 && src[s + 1] == 101 && src[s + 2] == 116 {
        assert(t =~= seq![108u8, 101u8, 116u8]);
        return Some(Kind::Let);
    }
    assert(t != seq![108u8, 101u8, 116u8]) by {
        let w = seq![108u8, 101u8, 116u8];
        if t == w {
            assert(w.len() == 3);
            assert(w[0] == 108u8 && t[0] == src@[s + 0]);
            assert(w[1] == 101u8 && t[1] == src@[s + 1]);
            assert(w[2] == 116u8 && t[2] == src@[s + 2]);
        }
    }
    if n == 3 && src[s + 0] == 117 && src[s + 1] == 115 && src[s + 2] == 101 {
        assert(t =~= seq![117u8, 115u8, 101u8]);
        return Some(Kind::Use);
    }
    assert(t != seq![117u8, 115u8, 101u8]) by {
        let w = seq![117u8, 115u8, 101u8];
        if t == w {
            assert(w.len() == 3);
            assert(w[0] == 117u8 && t[0] == src@[s + 0]);
            assert(w[1] == 115u8 && t[1] == src@[s + 1]);
            assert(w[2] == 101u8 && t[2] == src@[s + 2]);
        }
    }
    if n == 5 && src[s + 0] == 119 && src[s + 1] == 104 && src[s + 2] == 105 && src[s + 3] == 108 && src[s + 4] == 101 {
        assert(t =~= seq![119u8, 104u8, 105u8, 108u8, 101u8]);
        return Some(Kind::While);
    }
    assert(t != seq![119u8, 104u8, 105u8, 108u8, 101u8]) by {
        let w = seq![119u8, 104u8, 105u8, 108u8, 101u8];
        if t == w {
            assert(w.len() == 5);
            assert(w[0] == 119u8 && t[0] == src@[s + 0]);
            assert(w[1] == 104u8 && t[1] == src@[s + 1]);
            assert(w[2] == 105u8 && t[2] == src@[s + 2]);
            assert(w[3] == 108u8 && t[3] == src@[s + 3]);
            assert(w[4] == 101u8 && t[4] == src@[s + 4]);
        }
    }
    if n == 4 && src[s + 0] == 108 && src[s + 1] == 111 && src[s + 2] == 111 && src[s + 3] == 112 {
        assert(t =~= seq![108u8, 111u8, 111u8, 112u8]);
        return Some(Kind::Loop);
    }
    assert(t != seq![108u8, 111u8, 111u8, 112u8]) by {
        let w = seq![108u8, 111u8, 111u8, 112u8];
        if t == w {
            assert(w.len() == 4);
            assert(w[0] == 108u8 && t[0] == src@[s + 0]);
            assert(w[1] == 111u8 && t[1] == src@[s + 1]);
            assert(w[2] == 111u8 && t[2] == src@[s + 2]);
            assert(w[3] == 112u8 && t[3] == src@[s + 3]);
        }
    }
    if n == 3 && src[s + 0] == 102 && src[s + 1] == 111 && src[s + 2] == 114 {
        assert(t =~= seq![102u8, 111u8, 114u8]);
        return Some(Kind::For);
    }
    assert(t != seq![102u8, 111u8, 114u8]) by {
        let w = seq![102u8, 111u8, 114u8];
        if t == w {
            assert(w.len() == 3);
            assert(w[0] == 102u8 && t[0] == src@[s + 0]);
            assert(w[1] == 111u8 && t[1] == src@[s + 1]);
            assert(w[2] == 114u8 && t[2] == src@[s + 2]);
        }
    }
    if n == 2 && src[s + 0] == 105 && src[s + 1] == 110 {
        assert(t =~= seq![105u8, 110u8]);
        return Some(Kind::In);
    }
    assert(t != seq![105u8, 110u8]) by {
        let w = seq![105u8, 110u8];
        if t == w {
            assert(w.len() == 2);
            assert(w[0] == 105u8 && t[0] == src@[s + 0]);
            assert(w[1] == 110u8 && t[1] == src@[s + 1]);
        }
    }
    if n == 5 && src[s + 0] == 98 && src[s + 1] == 114 && src[s + 2] == 101 && src[s + 3] == 97 && src[s + 4] == 107 {
        assert(t =~= seq![98u8, 114u8, 101u8, 97u8, 107u8]);
        return Some(Kind::Break);
    }
    assert(t != seq![98u8, 114u8, 101u8, 97u8, 107u8]) by {
        let w = seq![98u8, 114u8, 101u8, 97u8, 107u8];
        if t == w {
            assert(w.len() == 5);
            assert(w[0] == 98u8 && t[0] == src@[s + 0]);
            assert(w[1] == 114u8 && t[1] == src@[s + 1]);
            assert(w[2] == 101u8 && t[2] == src@[s + 2]);
            assert(w[3] == 97u8 && t[3] == src@[s + 3]);
            assert(w[4] == 107u8 && t[4] == src@[s + 4]);
        }
    }
    if n == 5 && src[s + 0] == 121 && src[s + 1] == 105 && src[s + 2] == 101 && src[s + 3] == 108 && src[s + 4] == 100 {
        assert(t =~= seq![121u8, 105u8, 101u8, 108u8, 100u8]);
        return Some(Kind::Yield);
    }
    assert(t != seq![121u8, 105u8, 101u8, 108u8, 100u8]) by {
        let w = seq![121u8, 105u8, 101u8, 108u8, 100u8];
        if t == w {
            assert(w.len() == 5);
            assert(w[0] == 121u8 && t[0] == src@[s + 0]);
            assert(w[1] == 105u8 && t[1] == src@[s + 1]);
            assert(w[2] == 101u8 && t[2] == src@[s + 2]);
            assert(w[3] == 108u8 && t[3] == src@[s + 3]);
            assert(w[4] == 100u8 && t[4] == src@[s + 4]);
        }
    }
    if n == 6 && src[s + 0] == 114 && src[s + 1] == 101 && src[s + 2] == 116 && src[s + 3] == 117 && src[s + 4] == 114 && src[s + 5] == 110 {
        assert(t =~= seq![114u8, 101u8, 116u8, 117u8, 114u8, 110u8]);
        return Some(Kind::Return);
    }
    assert(t != seq![114u8, 101u8, 116u8, 117u8, 114u8, 110u8]) by {
        let w = seq![114u8, 101u8, 116u8, 117u8, 114u8, 110u8];
        if t == w {
            assert(w.len() == 6);
            assert(w[0] == 114u8 && t[0] == src@[s + 0]);
            assert(w[1] == 101u8 && t[1] == src@[s + 1]);
            assert(w[2] == 116u8 && t[2] == src@[s + 2]);
            assert(w[3] == 117u8 && t[3] == src@[s + 3]);
            assert(w[4] == 114u8 && t[4] == src@[s + 4]);
            assert(w[5] == 110u8 && t[5] == src@[s + 5]);
        }
    }
    if n == 5 && src[s + 0] == 97 && src[s + 1] == 119 && src[s + 2] == 97 && src[s + 3] == 105 && src[s + 4] == 116 {
        assert(t =~= seq![97u8, 119u8, 97u8, 105u8, 116u8]);
        return Some(Kind::Await);
    }
    assert(t != seq![97u8, 119u8, 97u8, 105u8, 116u8]) by {
        let w = seq![97u8, 119u8, 97u8, 105u8, 116u8];
        if t == w {
            assert(w.len() == 5);
            assert(w[0] == 97u8 && t[0] == src@[s + 0]);
            assert(w[1] == 119u8 && t[1] == src@[s + 1]);
            assert(w[2] == 97u8 && t[2] == src@[s + 2]);
            assert(w[3] == 105u8 && t[3] == src@[s + 3]);
            assert(w[4] == 116u8 && t[4] == src@[s + 4]);
        }
    }
    if n == 5 && src[s + 0] == 97 && src[s + 1] == 115 && src[s + 2] == 121 && src[s + 3] == 110 && src[s + 4] == 99 {
        assert(t =~= seq![97u8, 115u8, 121u8, 110u8, 99u8]);
        return Some(Kind::Async);
    }
    assert(t != seq![97u8, 115u8, 121u8, 110u8, 99u8]) by {
        let w = seq![97u8, 115u8, 121u8, 110u8, 99u8];
        if t == w {
            assert(w.len() == 5);
            assert(w[0] == 97u8 && t[0] == src@[s + 0]);
            assert(w[1] == 115u8 && t[1] == src@[s + 1]);
            assert(w[2] == 121u8 && t[2] == src@[s + 2]);
            assert(w[3] == 110u8 && t[3] == src@[s + 3]);
            assert(w[4] == 99u8 && t[4] == src@[s + 4]);
        }
    }
    if n == 6 && src[s + 0] == 115 && src[s + 1] == 101 && src[s + 2] == 108 && src[s + 3] == 101 && src[s + 4] == 99 && src[s + 5] == 116 {
        assert(t =~= seq![115u8, 101u8, 108u8, 101u8, 99u8, 116u8]);
        return Some(Kind::Select);
    }
    assert(t != seq![115u8, 101u8, 108u8, 101u8, 99u8, 116u8]) by {
        let w = seq![115u8, 101u8, 108u8, 101u8, 99u8, 116u8];
        if t == w {
            assert(w.len() == 6);
            assert(w[0] == 115u8 && t[0] == src@[s + 0]);
            assert(w[1] == 101u8 && t[1] == src@[s + 1]);
            assert(w[2] == 108u8 && t[2] == src@[s + 2]);
            assert(w[3] == 101u8 && t[3] == src@[s + 3]);
            assert(w[4] == 99u8 && t[4] == src@[s + 4]);
            assert(w[5] == 116u8 && t[5] == src@[s + 5]);
        }
    }
    if n == 7 && src[s + 0] == 100 && src[s + 1] == 101 && src[s + 2] == 102 && src[s + 3] == 97 && src[s + 4] == 117 && src[s + 5] == 108 && src[s + 6] == 116 {
        assert(t =~= seq![100u8, 101u8, 102u8, 97u8, 117u8, 108u8, 116u8]);
        return Some(Kind::Default);
    }
    assert(t != seq![100u8, 101u8, 102u8, 97u8, 117u8, 108u8, 116u8]) by {
        let w = seq![100u8, 101u8, 102u8, 97u8, 117u8, 108u8, 116u8];
        if t == w {
            assert(w.len() == 7);
            assert(w[0] == 100u8 && t[0] == src@[s + 0]);
            assert(w[1] == 101u8 && t[1] == src@[s + 1]);
            assert(w[2] == 102u8 && t[2] == src@[s + 2]);
            assert(w[3] == 97u8 && t[3] == src@[s + 3]);
            assert(w[4] == 117u8 && t[4] == src@[s + 4]);
            assert(w[5] == 108u8 && t[5] == src@[s + 5]);
            assert(w[6] == 116u8 && t[6] == src@[s + 6]);
        }
    }
    if n == 4 && src[s + 0] == 105 && src[s + 1] == 109 && src[s + 2] == 112 && src[s + 3] == 108 {
        assert(t =~= seq![105u8, 109u8, 112u8, 108u8]);
        return Some(Kind::Impl);
    }
    assert(t != seq![105u8, 109u8, 112u8, 108u8]) by {
        let w = seq![105u8, 109u8, 112u8, 108u8];
        if t == w {
            assert(w.len() == 4);
            assert(w[0] == 105u8 && t[0] == src@[s + 0]);
            assert(w[1] == 109u8 && t[1] == src@[s + 1]);
            assert(w[2] == 112u8 && t[2] == src@[s + 2]);
            assert(w[3] == 108u8 && t[3] == src@[s + 3]);
        }
    }
    if n == 4 && src[s + 0] == 116 && src[s + 1] == 114 && src[s + 2] == 117 && src[s + 3] == 101 {
        assert(t =~= seq![116u8, 114u8, 117u8, 101u8]);
        return Some(Kind::True);
    }
    assert(t != seq![116u8, 114u8, 117u8, 101u8]) by {
        let w = seq![116u8, 114u8, 117u8, 101u8];
        if t == w {
            assert(w.len() == 4);
            assert(w[0] == 116u8 && t[0] == src@[s + 0]);
            assert(w[1] == 114u8 && t[1] == src@[s + 1]);
            assert(w[2] == 117u8 && t[2] == src@[s + 2]);
            assert(w[3] == 101u8 && t[3] == src@[s + 3]);
        }
    }
    if n == 5 && src[s + 0] == 102 && src[s + 1] == 97 && src[s + 2] == 108 && src[s + 3] == 115 && src[s + 4] == 101 {
        assert(t =~= seq![102u8, 97u8, 108u8, 115u8, 101u8]);
        return Some(Kind::False);
    }
    assert(t != seq![102u8, 97u8, 108u8, 115u8, 101u8]) by {
        let w = seq![102u8, 97u8, 108u8, 115u8, 101u8];
        if t == w {
            assert(w.len() == 5);
            assert(w[0] == 102u8 && t[0] == src@[s + 0]);
            assert(w[1] == 97u8 && t[1] == src@[s + 1]);
            assert(w[2] == 108u8 && t[2] == src@[s + 2]);
            assert(w[3] == 115u8 && t[3] == src@[s + 3]);
            assert(w[4] == 101u8 && t[4] == src@[s + 4]);
        }
    }
    if n == 1 && src[s + 0] == 95 {
        assert(t =~= seq![95u8]);
        return Some(Kind::Underscore);
    }
    assert(t != seq![95u8]) by {
        let w = seq![95u8];
        if t == w {
            assert(w.len() == 1);
            assert(w[0] == 95u8 && t[0] == src@[s + 0]);
        }
    }
    None
}

/// The punctuation token that starts at `src[i]`, longest first, with its length.
pub fn punct_at(src: &[u8], i: usize) -> (r: Option<(Kind, usize)>)
    requires
        i < src@.len(),
    ensures
        is_punct_byte(src@[i as int]) ==> r is Some,
        r is Some ==> 1 <= r->Some_0.1 <= 2 && i + r->Some_0.1 <= src@.len()
            && punct_text(r->Some_0.0) == Some(src@.subrange(i as int, i + r->Some_0.1)),
{
    let n = src.len();
    if n - i > 1 {
        let a = src[i];
        let b = src[i + 1];
        if a == 58 && b == 58 {
            assert(src@.subrange(i as int, i + 2) =~= seq![58u8, 58u8]);
            return Some((Kind::Scope, 2));
        }
        if a == 46 && b == 46 {
            assert(src@.subrange(i as int, i + 2) =~= seq![46u8, 46u8]);
            return Some((Kind::DotDot, 2));
        }
        if a == 61 && b == 61 {
            assert(src@.subrange(i as int, i + 2) =~= seq![61u8, 61u8]);
            return Some((Kind::EqEq, 2));
        }
        if a == 33 && b == 61 {
            assert(src@.subrange(i as int, i + 2) =~= seq![33u8, 61u8]);
            return Some((Kind::Neq, 2));
        }
        if a == 60 && b == 61 {
            assert(src@.subrange(i as int, i + 2) =~= seq![60u8, 61u8]);
            return Some((Kind::Lte, 2));
        }
        if a == 62 && b == 61 {
            assert(src@.subrange(i as int, i + 2) =~= seq![62u8, 61u8]);
            return Some((Kind::Gte, 2));
        }
        if a == 43 && b == 61 {
            assert(src@.subrange(i as int, i + 2) =~= seq![43u8, 61u8]);
            return Some((Kind::AddAssign, 2));
        }
        if a == 45 && b == 61 {
            assert(src@.subrange(i as int, i + 2) =~= seq![45u8, 61u8]);
            return Some((Kind::SubAssign, 2));
        }
        if a == 42 && b == 61 {
            assert(src@.subrange(i as int, i + 2) =~= seq![42u8, 61u8]);
            return Some((Kind::MulAssign, 2));
        }
        if a == 47 && b == 61 {
            assert(src@.subrange(i as int, i + 2) =~= seq![47u8, 61u8]);
            return Some((Kind::DivAssign, 2));
        }
        if a == 38 && b == 38 {
            assert(src@.subrange(i as int, i + 2) =~= seq![38u8, 38u8]);
            return Some((Kind::And, 2));
        }
        if a == 124 && b == 124 {
            assert(src@.subrange(i as int, i + 2) =~= seq![124u8, 124u8]);
            return Some((Kind::Or, 2));
        }
        if a == 61 && b == 62 {
            assert(src@.subrange(i as int, i + 2) =~= seq![61u8, 62u8]);
            return Some((Kind::Rocket, 2));
        }
        if a == 63 && b == 63 {
            assert(src@.subrange(i as int, i + 2) =~= seq![63u8, 63u8]);
            return Some((Kind::QuestionQuestion, 2));
        }
    }
    let a = src[i];
    if a == 40 {
        assert(src@.subrange(i as int, i + 1) =~= seq![40u8]);
        return Some((Kind::Open(Delimiter::Parenthesis), 1));
    }
    if a == 41 {
        assert(src@.subrange(i as int, i + 1) =~= seq![41u8]);
        return Some((Kind::Close(Delimiter::Parenthesis), 1));
    }
    if a == 123 {
        assert(src@.subrange(i as int, i + 1) =~= seq![123u8]);
        return Some((Kind::Open(Delimiter::Brace), 1));
    }
    if a == 125 {
        assert(src@.subrange(i as int, i + 1) =~= seq![125u8]);
        return Some((Kind::Close(Delimiter::Brace), 1));
    }
    if a == 91 {
        assert(src@.subrange(i as int, i + 1) =~= seq![91u8]);
        return Some((Kind::Open(Delimiter::Bracket), 1));
    }
    if a == 93 {
        assert(src@.subrange(i as int, i + 1) =~= seq![93u8]);
        return Some((Kind::Close(Delimiter::Bracket), 1));
    }
    if a == 44 {
        assert(src@.subrange(i as int, i + 1) =~= seq![44u8]);
        return Some((Kind::Comma, 1));
    }
    if a == 58 {
        assert(src@.subrange(i as int, i + 1) =~= seq![58u8]);
        return Some((Kind::Colon, 1));
    }
    if a == 46 {
        assert(src@.subrange(i as int, i + 1) =~= seq![46u8]);
        return Some((Kind::Dot, 1));
    }
    if a == 59 {
        assert(src@.subrange(i as int, i + 1) =~= seq![59u8]);
        return Some((Kind::SemiColon, 1));
    }
    if a == 61 {
        assert(src@.subrange(i as int, i + 1) =~= seq![61u8]);
        return Some((Kind::Eq, 1));
    }
    if a == 60 {
        assert(src@.subrange(i as int, i + 1) =~= seq![60u8]);
        return Some((Kind::Lt, 1));
    }
    if a == 62 {
        assert(src@.subrange(i as int, i + 1) =~= seq![62u8]);
        return Some((Kind::Gt, 1));
    }
    if a == 43 {
        assert(src@.subrange(i as int, i + 1) =~= seq![43u8]);
        return Some((Kind::Add, 1));
    }
    if a == 45 {
        assert(src@.subrange(i as int, i + 1) =~= seq![45u8]);
        return Some((Kind::Sub, 1));
    }
    if a == 42 {
        assert(src@.subrange(i as int, i + 1) =~= seq![42u8]);
        return Some((Kind::Mul, 1));
    }
    if a == 47 {
        assert(src@.subrange(i as int, i + 1) =~= seq![47u8]);
        return Some((Kind::Div, 1));
    }
    if a == 37 {
        assert(src@.subrange(i as int, i + 1) =~= seq![37u8]);
        return Some((Kind::Rem, 1));
    }
    if a == 33 {
        assert(src@.subrange(i as int, i + 1) =~= seq![33u8]);
        return Some((Kind::Bang, 1));
    }
    if a == 124 {
        assert(src@.subrange(i as int, i + 1) =~= seq![124u8]);
        return Some((Kind::Pipe, 1));
    }
    if a == 38 {
        assert(src@.subrange(i as int, i + 1) =~= seq![38u8]);
        return Some((Kind::Amp, 1));
    }
    if a == 35 {
        assert(src@.subrange(i as int, i + 1) =~= seq![35u8]);
        return Some((Kind::Hash, 1));
    }
    if a == 63 {
        assert(src@.subrange(i as int, i + 1) =~= seq![63u8]);
        return Some((Kind::Try, 1));
    }
    None
}

/// The end of the identifier run that starts at `i`.
fn scan_ident(src: &[u8], i: usize) -> (e: usize)
    requires
        i < src@.len(),
        is_ident_start(src@[i as int]),
    ensures
        i < e <= src@.len(),
        is_ident_text(src@.subrange(i as int, e as int)),
        e < src@.len() ==> !is_ident_continue(src@[e as int]),
{
    let n = src.len();
    let mut e: usize = i + 1;
    while e < src.len() && (is_ident_byte(src[e]))
        invariant
            i < e <= src@.len(),
            is_ident_start(src@[i as int]),
            forall|k: int| i < k < e ==> is_ident_continue(#[trigger] src@[k]),
        decreases src@.len() - e,
    {
        e = e + 1;
    }
    let ghost t = src@.subrange(i as int, e as int);
    assert forall|k: int| 1 <= k < t.len() implies is_ident_continue(#[trigger] t[k]) by {
        assert(t[k] == src@[i + k]);
    }
    e
}

fn is_ident_byte(b: u8) -> (r: bool)
    ensures
        r == is_ident_continue(b),
{
    (65 <= b && b <= 90) || (97 <= b && b <= 122) || b == 95 || (48 <= b && b <= 57)
}

fn is_hex_byte(b: u8) -> (r: bool) {
    (48 <= b && b <= 57) || (65 <= b && b <= 70) || (97 <= b && b <= 102)
}

/// The end and the kind of the number literal that starts at `i`.
fn scan_number(src: &[u8], i: usize) -> (r: (usize, NumberKind))
    requires
        i < src@.len(),
        is_digit(src@[i as int]),
    ensures
        i < r.0 <= src@.len(),
{
    let n = src.len();
    if src[i] == 48 && n - i > 2 && (src[i + 1] == 120 || src[i + 1] == 111 || src[i + 1] == 98) {
        // 0x, 0o, 0b
        let kind = if src[i + 1] == 120 {
            NumberKind::Hex
        } else if src[i + 1] == 111 {
            NumberKind::Octal
        } else {
            NumberKind::Binary
        };
        let mut e: usize = i + 2;
        while e < n && (is_hex_byte(src[e]) || src[e] == 95)
            invariant
                i + 2 <= e <= n,
                n == src@.len(),
            decreases n - e,
        {
            e = e + 1;
        }
        return (e, kind);
    }
    let mut e: usize = i + 1;
    while e < n && ((48 <= src[e] && src[e] <= 57) || src[e] == 95)
        invariant
            i < e <= n,
            n == src@.len(),
        decreases n - e,
    {
        e = e + 1;
    }
    let mut kind = NumberKind::Decimal;
    // a fraction needs a digit after the dot, so that `1..2` and `x.0.y` stay apart
    if n - e > 1 && src[e] == 46 && 48 <= src[e + 1] && src[e + 1] <= 57 {
        kind = NumberKind::Float;
        e = e + 1;
        while e < n && ((48 <= src[e] && src[e] <= 57) || src[e] == 95)
            invariant
                i < e <= n,
                n == src@.len(),
            decreases n - e,
        {
            e = e + 1;
        }
    }
    if n - e > 1 && (src[e] == 101 || src[e] == 69) && 48 <= src[e + 1] && src[e + 1] <= 57 {
        kind = NumberKind::Float;
        e = e + 1;
        while e < n && 48 <= src[e] && src[e] <= 57
            invariant
                i < e <= n,
                n == src@.len(),
            decreases n - e,
        {
            e = e + 1;
        }
    }
    (e, kind)
}

/// The end of the escape sequence whose backslash stands at `i`.
fn scan_escape(src: &[u8], i: usize) -> (r: Result<usize, ParseError>)
    requires
        i < src@.len(),
    ensures
        r is Ok ==> i + 2 <= r->Ok_0 <= src@.len(),
{
    let n = src.len();
    if n - i < 2 {
        return Err(ParseError::BadEscapeSequence { span: Span { start: i, end: n } });
    }
    let c = src[i + 1];
    // n r t \ ' " 0
    if c == 110 || c == 114 || c == 116 || c == 92 || c == 39 || c == 34 || c == 48 || c == 96 {
        return Ok(i + 2);
    }
    if c == 120 {
        // \xNN
        if n - i > 3 && is_hex_byte(src[i + 2]) && is_hex_byte(src[i + 3]) {
            return Ok(i + 4);
        }
        return Err(ParseError::BadEscapeSequence { span: Span { start: i, end: i + 2 } });
    }
    if c == 117 && n - i > 2 && src[i + 2] == 123 {
        // \u{...}
        let mut e: usize = i + 3;
        while e < n && is_hex_byte(src[e])
            invariant
                i + 3 <= e <= n,
                n == src@.len(),
            decreases n - e,
        {
            e = e + 1;
        }
        if e < n && src[e] == 125 && e > i + 3 && e - (i + 3) <= 6 {
            return Ok(e + 1);
        }
        return Err(ParseError::BadEscapeSequence { span: Span { start: i, end: e } });
    }
    Err(ParseError::BadEscapeSequence { span: Span { start: i, end: i + 2 } })
}

/// The end of the literal opened by the quote byte `q` at `i`, just past its
/// closing quote.
fn scan_quoted(src: &[u8], i: usize, q: u8) -> (r: Result<usize, ParseError>)
    requires
        i < src@.len(),
        src@[i as int] == q,
    ensures
        r is Ok ==> i + 2 <= r->Ok_0 <= src@.len() && is_quoted(src@.subrange(i as int, r->Ok_0 as int), q),
{
    let n = src.len();
    let mut e: usize = i + 1;
    while e < n
        invariant
            i < e <= n,
            n == src@.len(),
            src@[i as int] == q,
        decreases n - e,
    {
        let b = src[e];
        if b == q {
            let ghost t = src@.subrange(i as int, e + 1);
            assert(t[0] == src@[i as int]);
            assert(t[t.len() - 1] == src@[e as int]);
            return Ok(e + 1);
        }
        if b == 92 {
            e = scan_escape(src, e)?;
        } else {
            e = e + 1;
        }
    }
    let span = Span { start: i, end: n };
    if q == 34 {
        Err(ParseError::UnterminatedStrLit { span })
    } else if q == 39 {
        Err(ParseError::UnterminatedCharLit { span })
    } else {
        Err(ParseError::UnterminatedTemplate { span })
    }
}

/// Byte `k` lies in a line comment: a `//` starts at or before it, with no
/// newline in between.
pub open spec fn in_comment(src: Seq<u8>, k: int) -> bool {
    exists|c: int|
        0 <= c <= k && c + 1 < src.len() && src[c] == 47 && src[c + 1] == 47 && #[trigger] no_newline(src, c, k)
}

/// No byte of `src[c..=k]` is a newline.
pub open spec fn no_newline(src: Seq<u8>, c: int, k: int) -> bool {
    forall|m: int| c <= m <= k ==> src[m] != 10
}

/// Byte `k` lies within one of the tokens.
pub open spec fn covered(toks: Seq<Token>, k: int) -> bool {
    exists|t: int| 0 <= t < toks.len() && #[trigger] toks[t].span.start <= k < toks[t].span.end
}

/// Every byte before `end` is whitespace, part of a comment, or part of a
/// token.
#[verifier::opaque]
pub open spec fn all_accounted(src: Seq<u8>, toks: Seq<Token>, end: int) -> bool {
    forall|k: int| 0 <= k < end ==> is_space(#[trigger] src[k]) || in_comment(src, k) || covered(toks, k)
}

/// The end of the line comment that starts at `i`: the next newline, or the
/// end of the source.
fn skip_comment(src: &[u8], i: usize) -> (r: usize)
    requires
        i + 1 < src@.len(),
        src@[i as int] == 47 && src@[i + 1] == 47,
    ensures
        i < r <= src@.len(),
        forall|k: int| i <= k < r ==> in_comment(src@, k),
{
    let n = src.len();
    let mut j: usize = i;
    while j < n && src[j] != 10
        invariant
            i <= j <= n,
            n == src@.len(),
            i + 1 < n,
            src@[i as int] == 47 && src@[i + 1] == 47,
            forall|m: int| i <= m < j ==> src@[m] != 10,
            forall|k: int| i <= k < j ==> in_comment(src@, k),
        decreases n - j,
    {
        assert(no_newline(src@, i as int, j as int));
        j = j + 1;
    }
    if j == i {
        j = j + 1;
    }
    j
}

proof fn lemma_extend_accounted(src: Seq<u8>, toks: Seq<Token>, start: int, end: int)
    requires
        all_accounted(src, toks, start),
        forall|k: int| start <= k < end ==> in_comment(src, k),
    ensures
        all_accounted(src, toks, end),
{
    reveal(all_accounted);
}

proof fn lemma_space_accounted(src: Seq<u8>, toks: Seq<Token>, i: int)
    requires
        all_accounted(src, toks, i),
        0 <= i < src.len(),
        is_space(src[i]),
    ensures
        all_accounted(src, toks, i + 1),
{
    reveal(all_accounted);
}

proof fn lemma_push_accounted(src: Seq<u8>, before: Seq<Token>, tok: Token, start: int, end: int)
    requires
        all_accounted(src, before, start),
        tok.span.start == start,
        tok.span.end == end,
    ensures
        all_accounted(src, before.push(tok), end),
{
    reveal(all_accounted);
    let toks = before.push(tok);
    assert forall|k: int| 0 <= k < end implies is_space(#[trigger] src[k]) || in_comment(src, k) || covered(toks, k) by {
        if k >= start {
            assert(toks[before.len() as int] == tok);
        } else if !is_space(src[k]) && !in_comment(src, k) {
            let t = choose|t: int| 0 <= t < before.len() && #[trigger] before[t].span.start <= k < before[t].span.end;
            assert(toks[t] == before[t]);
        }
    }
}

/// Every token a successful lexing hands out lies within the source bytes,
/// so resolving its text never fails.
pub proof fn lemma_lexed_spans_within(src: Seq<u8>, toks: Seq<Token>)
    requires
        tokens_ok(src, toks),
    ensures
        forall|i: int| 0 <= i < toks.len() ==> #[trigger] toks[i].span.start < toks[i].span.end <= src.len(),
{
    assert forall|i: int| 0 <= i < toks.len() implies #[trigger] toks[i].span.start < toks[i].span.end <= src.len() by {
        assert(token_ok(src, toks[i]));
    }
}

/// Split source bytes into tokens. Every byte is whitespace, part of a
/// comment, or part of exactly one token.
pub fn lex(src: &[u8]) -> (r: Result<Vec<Token>, ParseError>)
    ensures
        r is Ok ==> tokens_ok(src@, r->Ok_0@),
        r is Ok ==> all_accounted(src@, r->Ok_0@, src@.len() as int),
        (forall|k: int| 0 <= k < src@.len() ==> plain_byte(#[trigger] src@[k])) ==> r is Ok,
{
    let n = src.len();
    let mut toks: Vec<Token> = Vec::new();
    let mut i: usize = 0;
    proof {
        reveal(all_accounted);
    }
    while i < n
        invariant
            i <= n,
            n == src@.len(),
            tokens_ok(src@, toks@),
            toks@.len() > 0 ==> toks@.last().span.end <= i,
            all_accounted(src@, toks@, i as int),
        decreases n - i,
    {
        let b = src[i];
        let start = i;
        let kind;
        if b == 32 || b == 9 || b == 10 || b == 13 {
            proof {
                lemma_space_accounted(src@, toks@, i as int);
            }
            i = i + 1;
            continue;
        }
        if b == 47 && n - i > 1 && src[i + 1] == 47 {
            // line comment
            let end = skip_comment(src, i);
            proof {
                lemma_extend_accounted(src@, toks@, start as int, end as int);
            }
            i = end;
            continue;
        }
        if is_ident_byte(b) && !(48 <= b && b <= 57) {
            let e = scan_ident(src, i);
            kind = match keyword_at(src, i, e) {
                Some(k) => k,
                None => Kind::Ident,
            };
            i = e;
        } else if 48 <= b && b <= 57 {
            let (e, nk) = scan_number(src, i);
            kind = Kind::Number(nk);
            i = e;
        } else if b == 34 {
            i = scan_quoted(src, i, 34)?;
            kind = Kind::LitStr;
        } else if b == 96 {
            i = scan_quoted(src, i, 96)?;
            kind = Kind::LitTemplate;
        } else if b == 39 {
            if n - i > 1 && is_ident_byte(src[i + 1]) && !(48 <= src[i + 1] && src[i + 1] <= 57) {
                let e = scan_ident(src, i + 1);
                if e < n && src[e] == 39 {
                    i = e + 1;
                    proof {
                        let t = src@.subrange(start as int, i as int);
                        assert(t[0] == src@[start as int]);
                        assert(t[t.len() - 1] == src@[e as int]);
                    }
                    kind = Kind::LitChar;
                } else {
                    proof {
                        assert(src@.subrange(start as int, e as int).subrange(1, e - start) =~= src@.subrange(
                            start + 1,
                            e as int,
                        ));
                    }
                    i = e;
                    kind = Kind::Label;
                }
            } else {
                i = scan_quoted(src, i, 39)?;
                kind = Kind::LitChar;
            }
        } else {
            match punct_at(src, i) {
                Some((k, len)) => {
                    kind = k;
                    i = i + len;
                },
                None => {
                    return Err(ParseError::UnexpectedChar { span: Span { start: i, end: i + 1 } });
                },
            }
        }
        let tok = Token { kind, span: Span { start, end: i } };
        proof {
            assert(token_ok(src@, tok));
        }
        let ghost before = toks@;
        toks.push(tok);
        proof {
            lemma_push_accounted(src@, before, tok, start as int, i as int);
        }
    }
    Ok(toks)
}

} // verus!
