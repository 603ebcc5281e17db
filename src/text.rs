use vstd::prelude::*;

verus! {

/// The character of a decimal digit `d < 10`.
pub open spec fn digit_char(d: nat) -> char {
    if d == 0 {
        '0'
    } else if d == 1 {
        '1'
    } else if d == 2 {
        '2'
    } else if d == 3 {
        '3'
    } else if d == 4 {
        '4'
    } else if d == 5 {
        '5'
    } else if d == 6 {
        '6'
    } else if d == 7 {
        '7'
    } else if d == 8 {
        '8'
    } else {
        '9'
    }
}

/// Decimal notation of `n`, without leading zeros (`0` is written "0").
pub open spec fn decimal(n: nat) -> Seq<char>
    decreases n,
{
    if n < 10 {
        seq![digit_char(n)]
    } else {
        decimal(n / 10).push(digit_char(n % 10))
    }
}

/// `needle` occurs in `hay` as a contiguous run of characters.
pub open spec fn contains_at(hay: Seq<char>, needle: Seq<char>, i: int) -> bool {
    0 <= i && i + needle.len() <= hay.len() && hay.subrange(i, i + needle.len()) == needle
}

pub open spec fn contains(hay: Seq<char>, needle: Seq<char>) -> bool {
    exists|i: int| contains_at(hay, needle, i)
}

/// The handshake sent to a client: the worker id and one newline.
pub open spec fn handshake_text(id: Seq<char>) -> Seq<char> {
    id.push('\n')
}

/// The first line of a text as a line-framed reader hands it out: the
/// characters before the first newline, less one carriage return at its end.
pub open spec fn first_line(s: Seq<char>) -> Seq<char> {
    let body = if exists|k: int| 0 <= k < s.len() && s[k] == '\n' {
        s.take(choose|k: int| 0 <= k < s.len() && s[k] == '\n' && forall|j: int| 0 <= j < k ==> s[j] != '\n')
    } else {
        s
    };
    if body.len() > 0 && body.last() == '\r' {
        body.drop_last()
    } else {
        body
    }
}

/// An id that travels as one line: no newline in it, no carriage return at its end.
pub open spec fn is_line_safe(id: Seq<char>) -> bool {
    (forall|k: int| 0 <= k < id.len() ==> id[k] != '\n') && !(id.len() > 0 && id.last() == '\r')
}

/// The command-line flag that starts a worker in the foreground under `id`.
pub open spec fn foreground_flag(id: Seq<char>) -> Seq<char> {
    "--fg-daemon="@ + id
}

fn digit_str(d: u32) -> (r: &'static str)
    requires
        d < 10,
    ensures
        r@ == seq![digit_char(d as nat)],
{
    proof {
        reveal_strlit("0");
        reveal_strlit("1");
        reveal_strlit("2");
        reveal_strlit("3");
        reveal_strlit("4");
        reveal_strlit("5");
        reveal_strlit("6");
        reveal_strlit("7");
        reveal_strlit("8");
        reveal_strlit("9");
    }
    if d == 0 {
        "0"
    } else if d == 1 {
        "1"
    } else if d == 2 {
        "2"
    } else if d == 3 {
        "3"
    } else if d == 4 {
        "4"
    } else if d == 5 {
        "5"
    } else if d == 6 {
        "6"
    } else if d == 7 {
        "7"
    } else if d == 8 {
        "8"
    } else {
        "9"
    }
}

/// Appends the decimal notation of `n` to `s`.
pub fn push_decimal(s: &mut String, n: u32)
    ensures
        final(s)@ == old(s)@ + decimal(n as nat),
    decreases n,
{
    if n >= 10 {
        push_decimal(s, n / 10);
    }
    s.append(digit_str(n % 10));
    proof {
        if n >= 10 {
            assert(decimal(n as nat) == decimal((n / 10) as nat).push(digit_char((n % 10) as nat)));
        }
    }
}

/// Whether `needle` occurs in `hay`.
pub fn text_contains(hay: &str, needle: &str) -> (r: bool)
    ensures
        r == contains(hay@, needle@),
{
    let h = hay.unicode_len();
    let n = needle.unicode_len();
    if n > h {
        return false;
    }
    let mut i: usize = 0;
    while i <= h - n
        invariant
            h == hay@.len(),
            n == needle@.len(),
            n <= h,
            i <= h - n + 1,
            forall|k: int| 0 <= k < i ==> !contains_at(hay@, needle@, k),
        decreases h - n + 1 - i,
    {
        let mut j: usize = 0;
        let mut same = true;
        while j < n && same
            invariant
                h == hay@.len(),
                n == needle@.len(),
                i + n <= h,
                j <= n,
                same ==> forall|t: int| 0 <= t < j ==> hay@[i + t] == needle@[t],
                !same ==> exists|t: int| 0 <= t < n && hay@[i + t] != needle@[t],
            decreases n - j + (if same { 1int } else { 0int }),
        {
            if hay.get_char(i + j) != needle.get_char(j) {
                same = false;
            } else {
                j = j + 1;
            }
        }
        if same {
            assert(hay@.subrange(i as int, i + n) =~= needle@);
            assert(contains_at(hay@, needle@, i as int));
            return true;
        }
        proof {
            let t = choose|t: int| 0 <= t < n && hay@[i + t] != needle@[t];
            assert(hay@.subrange(i as int, i + n)[t] != needle@[t]);
        }
        i = i + 1;
    }
    false
}

/// The handshake line that hands a worker id to a client.
pub fn handshake_line(id: &str) -> (r: String)
    ensures
        r@ == handshake_text(id@),
{
    let s = String::from_str(id);
    proof {
        reveal_strlit("\n");
    }
    let r = s.concat("\n");
    assert(r@ =~= handshake_text(id@));
    r
}

/// A client reads back exactly the id that the handshake line carries.
pub proof fn lemma_handshake_round_trip(id: Seq<char>)
    requires
        is_line_safe(id),
    ensures
        first_line(handshake_text(id)) == id,
{
    let s = handshake_text(id);
    let k0 = id.len() as int;
    assert(0 <= k0 < s.len() && s[k0] == '\n');
    let k = choose|k: int| 0 <= k < s.len() && s[k] == '\n' && forall|j: int| 0 <= j < k ==> s[j] != '\n';
    assert(k == k0) by {
        if k < k0 {
            assert(s[k] == id[k]);
        } else if k > k0 {
            assert(s[k0] == '\n');
        }
    };
    assert(s.take(k) =~= id);
}

/// The flag that starts a worker in the foreground under `id`.
pub fn foreground_arg(id: &str) -> (r: String)
    ensures
        r@ == foreground_flag(id@),
{
    let s = String::from_str("--fg-daemon=");
    s.concat(id)
}

/// The arguments for the front end: the worker id after `-s`, then `--`,
/// the user's files, and a final `.` so that the front end stays open when
/// no file is given.
pub fn front_end_args(id: &str, files: &Vec<String>) -> (r: Vec<String>)
    ensures
        r@.len() == files@.len() + 4,
        r@[0]@ == "-s"@,
        r@[1]@ == id@,
        r@[2]@ == "--"@,
        forall|k: int| 0 <= k < files@.len() ==> #[trigger] r@[k + 3]@ == files@[k]@,
        r@[files@.len() + 3int]@ == "."@,
{
    let mut r: Vec<String> = Vec::new();
    r.push(String::from_str("-s"));
    r.push(String::from_str(id));
    r.push(String::from_str("--"));
    let mut i: usize = 0;
    while i < files.len()
        invariant
            i <= files@.len(),
            r@.len() == i + 3,
            r@[0]@ == "-s"@,
            r@[1]@ == id@,
            r@[2]@ == "--"@,
            forall|k: int| 0 <= k < i ==> #[trigger] r@[k + 3]@ == files@[k]@,
        decreases files@.len() - i,
    {
        r.push(files[i].clone());
        i = i + 1;
    }
    r.push(String::from_str("."));
    r
}

} // verus!
