//! Making sure that the media process did not fail in silence.

use vstd::prelude::*;
use vstd::string::StringExecFns;

verus! {

/// The error lines, each closed by a line feed, one behind the other.
pub open spec fn error_text(lines: Seq<String>) -> Seq<char>
    decreases lines.len(),
{
    if lines.len() == 0 {
        Seq::empty()
    } else {
        error_text(lines.drop_last()) + lines.last()@ + seq!['\n']
    }
}

/// Judges a finished run of the media process by the error lines that it
/// left in its output: none is success, any is a failure that carries them
/// all, one to a line.
pub fn ffbabysit(possible_errors: &Vec<String>) -> (verdict: Result<(), String>)
    ensures
        match verdict {
            Ok(()) => possible_errors@.len() == 0,
            Err(text) => possible_errors@.len() > 0 && text@ == error_text(possible_errors@),
        },
{
    if possible_errors.len() == 0 {
        return Ok(());
    }
    let mut error_string = String::new();
    let mut i: usize = 0;
    proof {
        reveal_strlit("\n");
        assert(possible_errors@.take(0) =~= Seq::<String>::empty());
    }
    while i < possible_errors.len()
        invariant
            i <= possible_errors@.len(),
            "\n"@ == seq!['\n'],
            error_string@ == error_text(possible_errors@.take(i as int)),
        decreases possible_errors@.len() - i,
    {
        proof {
            assert(possible_errors@.take(i + 1).drop_last() =~= possible_errors@.take(i as int));
            assert(possible_errors@.take(i + 1).last() == possible_errors@[i as int]);
        }
        error_string.append(possible_errors[i].as_str());
        error_string.append("\n");
        i = i + 1;
    }
    proof {
        assert(possible_errors@.take(possible_errors@.len() as int) =~= possible_errors@);
    }
    Err(error_string)
}

} // verus!
