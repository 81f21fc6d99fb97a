use vstd::prelude::*;
use vstd::string::*;

verus! {

/// Milliseconds between two characters of a rendered reply.
pub const RENDER_DELAY_MILLIS: u64 = 10;

/// The label written before a reply.
pub open spec fn reply_label() -> Seq<char> {
    "Bot: "@
}

/// The label written before a reply.
pub fn reply_lead_in() -> (r: &'static str)
    ensures
        r@ == reply_label(),
{
    "Bot: "
}

/// What ends a rendered reply.
pub open spec fn reply_end() -> Seq<char> {
    seq!['\n']
}

/// The newline written after the last character of a reply.
pub fn reply_terminator() -> (r: &'static str)
    ensures
        r@ == reply_end(),
{
    proof {
        reveal_strlit("\n");
    }
    "\n"
}

/// The characters of a reply, in the order the renderer emits them, one delay
/// apart.
pub fn render_units(reply: &str) -> (r: Vec<char>)
    ensures
        r@ == reply@,
{
    let n = reply.unicode_len();
    let mut r: Vec<char> = Vec::new();
    let mut i: usize = 0;
    while i < n
        invariant
            n == reply@.len(),
            i <= n,
            r@ == reply@.subrange(0, i as int),
        decreases n - i,
    {
        r.push(reply.get_char(i));
        i = i + 1;
        proof {
            assert(r@ =~= reply@.subrange(0, i as int));
        }
    }
    proof {
        assert(r@ =~= reply@);
    }
    r
}

} // verus!
