//! Extraction of a fenced code block from a command body.
//!
//! The code is the text between the first fence and the next one, with an
//! optional language tag and an optional leading newline stripped.

use vstd::prelude::*;
use crate::text::{find_sub, spec_find, str_eq};

verus! {

/// The code fence.
pub open spec fn fence() -> Seq<char> {
    "```"@
}

/// Drop an optional `rust` language tag and an optional leading newline from
/// the front of a fenced block's content.
pub open spec fn strip_code_prefix(c: Seq<char>) -> Seq<char> {
    let c1 = if c.len() >= 4 && c.subrange(0, 4) == "rust"@ {
        c.skip(4)
    } else {
        c
    };
    if c1.len() >= 1 && c1[0] == '\n' {
        c1.skip(1)
    } else {
        c1
    }
}

/// The code block the body carries, if it has one: the content between the
/// first fence and the next, minus the language-tag prefix.
pub open spec fn extract_code_spec(body: Seq<char>) -> Option<Seq<char>> {
    match spec_find(body, fence()) {
        None => None,
        Some(i) => {
            let after = body.skip(i + fence().len() as int);
            match spec_find(after, fence()) {
                None => None,
                Some(j) => Some(strip_code_prefix(after.subrange(0, j))),
            }
        },
    }
}

/// Extract the fenced code block from a command body, if there is one.
pub fn extract_code(body: &str) -> (r: Option<String>)
    ensures
        match r {
            Some(code) => extract_code_spec(body@) == Some(code@),
            None => extract_code_spec(body@) is None,
        },
{
    proof {
        reveal_strlit("```");
        reveal_strlit("rust");
    }
    let i = match find_sub(body, "```") {
        Some(i) => i,
        None => {
            return None;
        },
    };
    let blen = body.unicode_len();
    let after = body.substring_char(i + 3, blen);
    proof {
        assert(after@ =~= body@.skip(i + fence().len() as int));
    }
    let j = match find_sub(after, "```") {
        Some(j) => j,
        None => {
            return None;
        },
    };
    let content = after.substring_char(0, j);
    proof {
        assert(content@ =~= after@.subrange(0, j as int));
    }
    let clen = content.unicode_len();
    let content1 = if clen >= 4 && str_eq(content.substring_char(0, 4), "rust") {
        content.substring_char(4, clen)
    } else {
        content
    };
    proof {
        if clen >= 4 && content@.subrange(0, 4) == "rust"@ {
            assert(content1@ =~= content@.skip(4));
        }
    }
    let c1len = content1.unicode_len();
    let content2 = if c1len >= 1 && content1.get_char(0) == '\n' {
        content1.substring_char(1, c1len)
    } else {
        content1
    };
    proof {
        if c1len >= 1 && content1@[0] == '\n' {
            assert(content2@ =~= content1@.skip(1));
        }
        assert(content2@ == strip_code_prefix(after@.subrange(0, j as int)));
    }
    Some(content2.to_owned())
}

} // verus!
