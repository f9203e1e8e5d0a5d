use vstd::prelude::*;
use vstd::string::StringExecFns;

verus! {

/// The shell-profile file, relative to the home directory, where the
/// installer offers to add its PATH entry; shells it does not know get
/// none and the operator is asked to edit the profile by hand.
pub fn profile_file_for_shell(shell: &String) -> (r: Option<String>)
    ensures
        shell@ == "bash"@ ==> (match r {
            Some(p) => p@ == ".bashrc"@,
            None => false,
        }),
        shell@ == "zsh"@ ==> (match r {
            Some(p) => p@ == ".zshrc"@,
            None => false,
        }),
        shell@ == "fish"@ ==> (match r {
            Some(p) => p@ == ".config/fish/config.fish"@,
            None => false,
        }),
        shell@ != "bash"@ && shell@ != "zsh"@ && shell@ != "fish"@ ==> r is None,
{
    proof {
        reveal_strlit("bash");
        reveal_strlit("zsh");
        reveal_strlit("fish");
        assert("bash"@.len() == 4 && "zsh"@.len() == 3 && "fish"@.len() == 4);
        assert("bash"@[0] == 'b' && "fish"@[0] == 'f');
        assert("bash"@ != "zsh"@ && "bash"@ != "fish"@ && "zsh"@ != "fish"@);
    }
    let bash = String::from_str("bash");
    let zsh = String::from_str("zsh");
    let fish = String::from_str("fish");
    if shell.eq(&bash) {
        Some(String::from_str(".bashrc"))
    } else if shell.eq(&zsh) {
        Some(String::from_str(".zshrc"))
    } else if shell.eq(&fish) {
        Some(String::from_str(".config/fish/config.fish"))
    } else {
        None
    }
}

/// The line the installer appends to the shell profile so that the
/// installation directory is on PATH.
pub fn path_line_for_shell(is_fish: bool) -> (r: String)
    ensures
        is_fish ==> r@ == "set -x PATH $HOME/.local/bin $PATH"@,
        !is_fish ==> r@ == "export PATH=\"$HOME/.local/bin:$PATH\""@,
{
    if is_fish {
        String::from_str("set -x PATH $HOME/.local/bin $PATH")
    } else {
        String::from_str("export PATH=\"$HOME/.local/bin:$PATH\"")
    }
}

/// Whether the list of PATH entries already holds the target directory.
pub fn path_contains(entries: &Vec<String>, target: &String) -> (r: bool)
    ensures
        r == exists|i: int| 0 <= i < entries@.len() && (#[trigger] entries@[i])@ == target@,
{
    let n = entries.len();
    let mut i: usize = 0;
    while i < n
        invariant
            n == entries@.len(),
            i <= n,
            forall|t: int| 0 <= t < i ==> (#[trigger] entries@[t])@ != target@,
        decreases n - i,
    {
        if entries[i].eq(target) {
            proof {
                assert(0 <= (i as int) && (i as int) < entries@.len() && entries@[i as int]@
                    == target@);
            }
            return true;
        }
        i = i + 1;
    }
    false
}

} // verus!
