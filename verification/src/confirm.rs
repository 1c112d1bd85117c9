//! The answer to the question that precedes a reset.

use crate::text::{ascii_lower, chars_of, lemma_lowers_to, to_ascii_lower, trim, trim_bounds};
use vstd::prelude::*;

verus! {

/// Whether a line typed at the reset prompt says yes: without the white
/// space around it, and without regard to the case of its letters, it is `y`
/// or `yes`.
pub open spec fn affirmative(line: Seq<char>) -> bool {
    let answer = trim(line).map_values(|c: char| ascii_lower(c));
    answer == "y"@ || answer == "yes"@
}

/// Executable form of [`affirmative`].
pub fn is_affirmative(line: &str) -> (yes: bool)
    ensures
        yes == affirmative(line@),
{
    let chars = chars_of(line);
    let (start, end) = trim_bounds(&chars);
    let ghost answer = trim(line@).map_values(|c: char| ascii_lower(c));
    proof {
        reveal_strlit("y");
        reveal_strlit("yes");
        assert(answer.len() == end - start);
        assert(forall|k: int| 0 <= k < answer.len() ==> answer[k] == ascii_lower(chars@[start + k]));
    }
    if end - start == 1 {
        let yes = to_ascii_lower(chars[start]) == 'y';
        proof {
            assert(answer[0] == ascii_lower(chars@[start as int]));
            assert(yes ==> answer =~= "y"@);
        }
        yes
    } else if end - start == 3 {
        let yes = to_ascii_lower(chars[start]) == 'y' && to_ascii_lower(chars[start + 1]) == 'e'
            && to_ascii_lower(chars[start + 2]) == 's';
        proof {
            assert(answer[0] == ascii_lower(chars@[start as int]));
            assert(answer[1] == ascii_lower(chars@[start + 1]));
            assert(answer[2] == ascii_lower(chars@[start + 2]));
            assert(yes ==> answer =~= "yes"@);
        }
        yes
    } else {
        false
    }
}

/// The lines that say yes, letter by letter: between the white space at
/// both ends stands `y` or `yes`, each letter in either case, and nothing else.
pub proof fn lemma_affirmative_answers(line: Seq<char>)
    ensures
        affirmative(line) <==> ({
            let answer = trim(line);
            ||| answer.len() == 1 && (answer[0] == 'y' || answer[0] == 'Y')
            ||| answer.len() == 3 && (answer[0] == 'y' || answer[0] == 'Y') && (answer[1] == 'e'
                || answer[1] == 'E') && (answer[2] == 's' || answer[2] == 'S')
        }),
{
    reveal_strlit("y");
    reveal_strlit("yes");
    assert("y"@.len() == 1 && "y"@[0] == 'y');
    assert("yes"@.len() == 3 && "yes"@[0] == 'y' && "yes"@[1] == 'e' && "yes"@[2] == 's');
    let answer = trim(line);
    let lowered = answer.map_values(|c: char| ascii_lower(c));
    assert(lowered.len() == answer.len());
    assert forall|c: char| ascii_lower(c) == 'y' <==> c == 'y' || c == 'Y' by {
        lemma_lowers_to(c, 'y', 'Y');
    }
    assert forall|c: char| ascii_lower(c) == 'e' <==> c == 'e' || c == 'E' by {
        lemma_lowers_to(c, 'e', 'E');
    }
    assert forall|c: char| ascii_lower(c) == 's' <==> c == 's' || c == 'S' by {
        lemma_lowers_to(c, 's', 'S');
    }
    if answer.len() == 1 {
        assert(lowered[0] == ascii_lower(answer[0]));
        assert(ascii_lower(answer[0]) == 'y' ==> lowered =~= "y"@);
    } else if answer.len() == 3 {
        assert(lowered[0] == ascii_lower(answer[0]));
        assert(lowered[1] == ascii_lower(answer[1]));
        assert(lowered[2] == ascii_lower(answer[2]));
        assert(ascii_lower(answer[0]) == 'y' && ascii_lower(answer[1]) == 'e' && ascii_lower(
            answer[2],
        ) == 's' ==> lowered =~= "yes"@);
    }
}

} // verus!
