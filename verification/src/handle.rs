use vstd::prelude::*;

verus! {

/// The decimal digits of `n`, most significant first.
pub open spec fn decimal_digits(n: nat) -> Seq<char>
    decreases n,
{
    if n < 10 {
        seq![(((n + 48) as u8) as char)]
    } else {
        decimal_digits(n / 10).push((((n % 10 + 48) as u8) as char))
    }
}

/// Relies on `alloc::string::String::push`: appends the given character to
/// the end of the string.
pub assume_specification[ String::push ](s: &mut String, ch: char)
    ensures
        final(s)@ == old(s)@.push(ch),
;

/// Relies on `alloc::string::String::push_str`: appends the given string
/// slice to the end of the string.
pub assume_specification[ String::push_str ](s: &mut String, string: &str)
    ensures
        final(s)@ == old(s)@ + string@,
;

/// Appends the decimal rendering of `n`.
fn push_decimal(out: &mut String, n: usize)
    ensures
        final(out)@ == old(out)@ + decimal_digits(n as nat),
    decreases n,
{
    if n >= 10 {
        push_decimal(out, n / 10);
    }
    let digit: u8 = (n % 10) as u8 + 48;
    out.push(digit as char);
    proof {
        if n < 10 {
            assert(old(out)@ + decimal_digits(n as nat) =~= old(out)@.push(digit as char));
        } else {
            assert(old(out)@ + decimal_digits(n as nat) =~= (old(out)@ + decimal_digits(
                (n / 10) as nat,
            )).push(digit as char));
        }
    }
}

/// A handle into a [`crate::GenerationalArray`]: a slot position together with
/// the generation that slot had when the handle was issued.
///
/// Handles are plain data: copyable, comparable, and free to outlive the value
/// they point at. A handle whose generation no longer matches its slot is
/// stale; the arena reports that at lookup time instead of handing back
/// whatever now occupies the slot.
#[derive(Copy, Clone, Debug, PartialEq, Eq, Structural)]
pub struct GenerationalIndex {
    pub(crate) index: usize,
    pub(crate) generation: usize,
}

impl GenerationalIndex {
    pub(crate) fn make(index: usize, generation: usize) -> (r: GenerationalIndex)
        ensures
            r.spec_index() == index,
            r.spec_generation() == generation,
    {
        GenerationalIndex { index, generation }
    }

    /// The slot position this handle refers to.
    pub closed spec fn spec_index(self) -> usize {
        self.index
    }

    /// The generation the slot had when this handle was issued.
    pub closed spec fn spec_generation(self) -> usize {
        self.generation
    }

    /// A handle is nothing but its position and generation: two handles that
    /// agree on both are the same handle.
    pub proof fn lemma_handle_determined(h1: GenerationalIndex, h2: GenerationalIndex)
        requires
            h1.spec_index() == h2.spec_index(),
            h1.spec_generation() == h2.spec_generation(),
        ensures
            h1 == h2,
    {
    }

    /// The slot position this handle refers to.
    pub fn index(&self) -> (r: usize)
        ensures
            r == self.spec_index(),
    {
        self.index
    }

    /// The generation the slot had when this handle was issued.
    pub fn generation(&self) -> (r: usize)
        ensures
            r == self.spec_generation(),
    {
        self.generation
    }

    /// The handle's one textual form.
    pub open spec fn spec_text(self) -> Seq<char> {
        "(index: "@ + decimal_digits(self.spec_index() as nat) + ", generation: "@
            + decimal_digits(self.spec_generation() as nat) + ")"@
    }

    /// Renders the handle as `(index: <position>, generation: <generation>)`,
    /// both numbers in decimal.
    pub fn to_text(&self) -> (s: String)
        ensures
            s@ == self.spec_text(),
    {
        let mut out = String::new();
        out.push_str("(index: ");
        push_decimal(&mut out, self.index);
        out.push_str(", generation: ");
        push_decimal(&mut out, self.generation);
        out.push_str(")");
        proof {
            assert(out@ =~= self.spec_text());
        }
        out
    }
}

} // verus!
