//! The text of a freshly generated environment file.

use crate::keys::{declared_keys, key_set, Key, Variant};
use vstd::prelude::*;
use vstd::string::StringExecFns;

verus! {

/// The line that declares one variable: its name, an equals sign, its
/// placeholder and a line feed.
pub open spec fn line_of(key: Key) -> Seq<char> {
    key.spec_name() + "="@ + key.spec_placeholder() + "\n"@
}

/// The lines of the given variables, one after the other.
pub open spec fn template(keys: Seq<Key>) -> Seq<char>
    decreases keys.len(),
{
    if keys.len() == 0 {
        Seq::empty()
    } else {
        template(keys.drop_last()) + line_of(keys.last())
    }
}

/// Writes out one line per variable, in the order given.
pub fn render(keys: &Vec<Key>) -> (text: String)
    ensures
        text@ == template(keys@),
{
    let mut text = String::new();
    let mut i: usize = 0;
    while i < keys.len()
        invariant
            i <= keys.len(),
            text@ == template(keys@.take(i as int)),
        decreases keys.len() - i,
    {
        let key = keys[i];
        text.append(key.name());
        text.append("=");
        text.append(key.placeholder());
        text.append("\n");
        proof {
            let next = keys@.take(i + 1);
            assert(next.drop_last() =~= keys@.take(i as int));
            assert(next.last() == key);
            assert(text@ =~= template(next.drop_last()) + line_of(key));
        }
        i += 1;
    }
    proof {
        assert(keys@.take(keys.len() as int) =~= keys@);
    }
    text
}

/// The text that a first run writes to the environment file: the variant's
/// variables in declared order, each with its placeholder.
pub fn env_file_text(variant: Variant) -> (text: String)
    ensures
        text@ == template(declared_keys(variant)),
{
    let keys = key_set(variant);
    render(&keys)
}

} // verus!
