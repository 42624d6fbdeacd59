//! Command parsing: extracting the image URL and emoji name from the raw
//! slash-command text.

use vstd::prelude::*;
use crate::errors::{ErrorKind, PipelineError, validation_error, validation_detail};
use crate::text::{is_space, seek, lemma_seek_props, seek_from};

verus! {

/// One parsed slash-command: where to fetch the image, and the emoji name to
/// register it under.  Both fields are non-empty and free of whitespace.
#[derive(Clone, Debug)]
pub struct Command {
    pub image_url: String,
    pub emoji_name: String,
}

/// Start of the first token: the first non-space character.
pub open spec fn tok1_start(s: Seq<char>) -> int {
    seek(s, 0, false)
}

/// End of the first token: the first space after it.
pub open spec fn tok1_end(s: Seq<char>) -> int {
    seek(s, tok1_start(s), true)
}

/// Start of the second token.
pub open spec fn tok2_start(s: Seq<char>) -> int {
    seek(s, tok1_end(s), false)
}

/// End of the second token.
pub open spec fn tok2_end(s: Seq<char>) -> int {
    seek(s, tok2_start(s), true)
}

/// Command text is well formed when it splits on whitespace into exactly two
/// non-empty tokens: both tokens exist, and nothing but whitespace follows
/// the second.
pub open spec fn text_well_formed(s: Seq<char>) -> bool {
    &&& tok1_start(s) < s.len()
    &&& tok2_start(s) < s.len()
    &&& seek(s, tok2_end(s), false) == s.len()
}

/// The first token of well-formed text: the image URL.
pub open spec fn first_token(s: Seq<char>) -> Seq<char> {
    s.subrange(tok1_start(s), tok1_end(s))
}

/// The second token of well-formed text: the emoji name.
pub open spec fn second_token(s: Seq<char>) -> Seq<char> {
    s.subrange(tok2_start(s), tok2_end(s))
}

/// The two tokens of well-formed text are non-empty and hold no whitespace:
/// trimming them changes nothing.
pub proof fn lemma_tokens_nonempty(s: Seq<char>)
    requires
        text_well_formed(s),
    ensures
        first_token(s).len() > 0,
        second_token(s).len() > 0,
        forall|i: int| 0 <= i < first_token(s).len() ==> !is_space(first_token(s)[i]),
        forall|i: int| 0 <= i < second_token(s).len() ==> !is_space(second_token(s)[i]),
{
    lemma_seek_props(s, 0, false);
    lemma_seek_props(s, tok1_start(s), true);
    lemma_seek_props(s, tok1_end(s), false);
    lemma_seek_props(s, tok2_start(s), true);
    assert(forall|i: int| 0 <= i < first_token(s).len() ==> first_token(s)[i] == s[tok1_start(s)
        + i]);
    assert(forall|i: int| 0 <= i < second_token(s).len() ==> second_token(s)[i] == s[tok2_start(s)
        + i]);
}

/// Parses the slash-command `text` field.
///
/// Succeeds exactly on present, well-formed text, and then returns its two
/// tokens verbatim; everything else is a validation error.
pub fn parse_command(text: Option<&str>) -> (r: Result<Command, PipelineError>)
    ensures
        r is Ok <==> (text matches Some(t) && text_well_formed(t@)),
        r matches Ok(cmd) ==> (text matches Some(t) && cmd.image_url@ == first_token(t@)
            && cmd.emoji_name@ == second_token(t@)),
        r matches Err(e) ==> e.kind == ErrorKind::Validation && e.detail@ == validation_detail(),
{
    let t = match text {
        None => {
            return Err(validation_error());
        },
        Some(t) => t,
    };
    let n = t.unicode_len();
    let a = seek_from(t, 0, false);
    proof {
        lemma_seek_props(t@, 0, false);
    }
    if a == n {
        return Err(validation_error());
    }
    let b = seek_from(t, a, true);
    proof {
        lemma_seek_props(t@, a as int, true);
    }
    let c = seek_from(t, b, false);
    proof {
        lemma_seek_props(t@, b as int, false);
    }
    if c == n {
        return Err(validation_error());
    }
    let d = seek_from(t, c, true);
    proof {
        lemma_seek_props(t@, c as int, true);
    }
    let e = seek_from(t, d, false);
    if e != n {
        return Err(validation_error());
    }
    let image_url = t.substring_char(a, b).to_owned();
    let emoji_name = t.substring_char(c, d).to_owned();
    Ok(Command { image_url, emoji_name })
}

} // verus!
