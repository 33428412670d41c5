//! Types and pure logic around the external wallet collaborator: its error
//! shapes, and the scanning of the wallet binary's output for the recovery
//! phrase it prints after creating a wallet.

use vstd::prelude::*;

use crate::strutil::{split_char, split_str, str_eq, str_views};

verus! {

/// Wallet directory already exists.
#[derive(Debug, Clone, PartialEq, Eq, Structural)]
pub struct WalletExistsError;

impl WalletExistsError {
    /// The user-facing text of this error.
    pub fn text(&self) -> (r: String)
        ensures
            r@ == "Wallet exists"@,
    {
        String::from_str("Wallet exists")
    }
}

/// Api secret (`.api_secret` file) does not exist.
#[derive(Debug, Clone, PartialEq, Eq, Structural)]
pub struct ApiSecretMissingError;

impl ApiSecretMissingError {
    /// The user-facing text of this error.
    pub fn text(&self) -> (r: String)
        ensures
            r@ == ".api_secret file does not exist in wallet directory"@,
    {
        String::from_str(".api_secret file does not exist in wallet directory")
    }
}

/// Error creating wallet.
#[derive(Debug, Clone, PartialEq, Eq, Structural)]
pub struct CreateWalletError;

impl CreateWalletError {
    /// The user-facing text of this error.
    pub fn text(&self) -> (r: String)
        ensures
            r@ == "Can't create wallet"@,
    {
        String::from_str("Can't create wallet")
    }
}

/// RPC error response from the wallet owner API.
#[derive(Debug, Clone, PartialEq, Eq)]
pub struct RpcError {
    pub code: i32,
    pub message: String,
}

/// Index of the first line equal to `t`, if any.
pub open spec fn find_line(lines: Seq<Seq<char>>, t: Seq<char>) -> Option<int>
    decreases lines.len(),
{
    if lines.len() == 0 {
        None
    } else if lines[0] == t {
        Some(0int)
    } else {
        match find_line(lines.skip(1), t) {
            Some(i) => Some(i + 1),
            None => None,
        }
    }
}

/// `find_line` names the least index whose line equals `t`, and `None`
/// means no line does.
pub proof fn lemma_find_line(lines: Seq<Seq<char>>, t: Seq<char>)
    ensures
        match find_line(lines, t) {
            Some(i) => 0 <= i < lines.len() && lines[i] == t && (forall|j: int|
                0 <= j < i ==> lines[j] != t),
            None => forall|j: int| 0 <= j < lines.len() ==> lines[j] != t,
        },
    decreases lines.len(),
{
    if lines.len() == 0 {
    } else if lines[0] == t {
    } else {
        lemma_find_line(lines.skip(1), t);
        match find_line(lines.skip(1), t) {
            Some(i) => {
                assert(lines.skip(1)[i] == lines[i + 1]);
                assert forall|j: int| 0 <= j < i + 1 implies lines[j] != t by {
                    if j > 0 {
                        assert(lines.skip(1)[j - 1] == lines[j]);
                    }
                }
            },
            None => {
                assert forall|j: int| 0 <= j < lines.len() implies lines[j] != t by {
                    if j > 0 {
                        assert(lines.skip(1)[j - 1] == lines[j]);
                    }
                }
            },
        }
    }
}

/// The marker line the wallet binary prints before the recovery phrase.
pub open spec fn recovery_marker() -> Seq<char> {
    "Your recovery phrase is:"@
}

/// The recovery phrase in the wallet binary's output: the second line after
/// the first marker line, where the marker occurs and such a line exists.
pub open spec fn seed_of_output(out: Seq<char>) -> Option<Seq<char>> {
    let lines = split_char(out, '\n');
    match find_line(lines, recovery_marker()) {
        Some(i) => if i + 2 < lines.len() {
            Some(lines[i + 2])
        } else {
            None
        },
        None => None,
    }
}

/// Scans the wallet binary's output for the recovery phrase, as
/// `seed_of_output` describes.
pub fn seed_from_wallet_output(output: &str) -> (r: Option<String>)
    ensures
        match r {
            Some(s) => seed_of_output(output@) == Some(s@),
            None => seed_of_output(output@) is None,
        },
{
    let ghost spec_lines = split_char(output@, '\n');
    let lines = split_str(output, '\n');
    let n = lines.len();
    let mut i: usize = 0;
    while i < n
        invariant
            n == lines@.len(),
            0 <= i <= n,
            str_views(lines@) == spec_lines,
            spec_lines == split_char(output@, '\n'),
            forall|j: int| 0 <= j < i ==> str_views(lines@)[j] != recovery_marker(),
        decreases n - i,
    {
        if str_eq(lines[i], "Your recovery phrase is:") {
            proof {
                assert(str_views(lines@)[i as int] == spec_lines[i as int]);
                lemma_find_line(spec_lines, recovery_marker());
                match find_line(spec_lines, recovery_marker()) {
                    Some(k) => {
                        if k < i {
                            assert(spec_lines[k] != recovery_marker());
                        } else if i < k {
                            assert(spec_lines[i as int] != recovery_marker());
                        }
                    },
                    None => {
                        assert(spec_lines[i as int] != recovery_marker());
                    },
                }
            }
            if n - i > 2 {
                return Some(String::from_str(lines[i + 2]));
            } else {
                return None;
            }
        }
        i += 1;
    }
    proof {
        lemma_find_line(spec_lines, recovery_marker());
        if find_line(spec_lines, recovery_marker()) is Some {
            let k = find_line(spec_lines, recovery_marker())->Some_0;
            assert(spec_lines[k] != recovery_marker());
        }
    }
    None
}

} // verus!
