//! A pool of pre-started editor daemons handed out to clients over a local
//! socket: worker lifecycle, the pool manager's event decisions, the
//! per-connection session, and the text that travels between them.
use vstd::prelude::*;

pub mod pool;
pub mod session;
pub mod text;
pub mod worker;

verus! {

/// Number of warm workers kept when no size is configured.
pub const DEFAULT_POOL_SIZE: usize = 3;

pub open spec fn sock_filename_text() -> Seq<char> {
    ".emacs-pool.sock"@
}

/// `name` placed under the directory `dir`: a separator goes between them
/// unless `dir` is empty or already ends in one.
pub open spec fn path_join(dir: Seq<char>, name: Seq<char>) -> Seq<char> {
    if dir.len() == 0 || dir.last() == '/' {
        dir + name
    } else {
        dir.push('/') + name
    }
}

/// File name of the pool's socket, placed under the user's home directory
/// when no explicit path is configured.
pub fn default_sock_filename() -> (r: &'static str)
    ensures
        r@ == sock_filename_text(),
{
    ".emacs-pool.sock"
}

/// The default socket path for the home directory `home`.
pub fn default_sock_path(home: &str) -> (r: String)
    ensures
        r@ == path_join(home@, sock_filename_text()),
{
    let n = home.unicode_len();
    let mut r = String::from_str(home);
    if n > 0 && home.get_char(n - 1) != '/' {
        proof {
            reveal_strlit("/");
        }
        r.append("/");
        assert(r@ =~= home@.push('/'));
    }
    r.append(default_sock_filename());
    r
}

} // verus!
