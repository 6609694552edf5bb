//! The `sounds` subcommands: install the bundled effects, list what is
//! installed, and play one by name.
use vstd::prelude::*;
use crate::docker::chars_of;

verus! {

/// One `sounds` subcommand.
#[derive(Clone, Debug, PartialEq, Eq)]
pub enum SoundsCommands {
    /// Install the bundled sound effects.
    Install,
    /// List the installed sounds.
    List,
    /// Play the sound of this name (without extension).
    Test { name: String },
}

/// `name` is one of the installed `sounds`.
pub open spec fn is_installed(sounds: Seq<String>, name: Seq<char>) -> bool {
    exists|i: int| 0 <= i < sounds.len() && sounds[i]@ == name
}

fn same_text(a: &str, b: &str) -> (r: bool)
    ensures
        r == (a@ == b@),
{
    let x = chars_of(a);
    let y = chars_of(b);
    if x.len() != y.len() {
        return false;
    }
    let mut i: usize = 0;
    while i < x.len()
        invariant
            x@ == a@,
            y@ == b@,
            x@.len() == y@.len(),
            i <= x@.len(),
            forall|k: int| 0 <= k < i ==> x@[k] == y@[k],
        decreases x@.len() - i,
    {
        if x[i] != y[i] {
            return false;
        }
        i = i + 1;
    }
    proof {
        assert(x@ =~= y@);
    }
    true
}

/// Whether a sound called `name` is among the installed `sounds`; a sound
/// that is not is reported instead of played.
pub fn sound_installed(sounds: &Vec<String>, name: &str) -> (r: bool)
    ensures
        r == is_installed(sounds@, name@),
{
    let mut i: usize = 0;
    while i < sounds.len()
        invariant
            i <= sounds@.len(),
            forall|k: int| 0 <= k < i ==> sounds@[k]@ != name@,
        decreases sounds@.len() - i,
    {
        if same_text(sounds[i].as_str(), name) {
            return true;
        }
        i = i + 1;
    }
    false
}

} // verus!
