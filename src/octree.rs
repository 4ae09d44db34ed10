use vstd::prelude::*;
use vstd::string::StringExecFns;

verus! {

/// The character of a single decimal digit.
pub open spec fn digit_char(d: nat) -> char {
    if d == 0 {
        '0'
    } else if d == 1 {
        '1'
    } else if d == 2 {
        '2'
    } else if d == 3 {
        '3'
    } else if d == 4 {
        '4'
    } else if d == 5 {
        '5'
    } else if d == 6 {
        '6'
    } else if d == 7 {
        '7'
    } else if d == 8 {
        '8'
    } else {
        '9'
    }
}

/// The decimal notation of a natural number, without leading zeros.
pub open spec fn decimal(n: nat) -> Seq<char>
    decreases n,
{
    if n < 10 {
        seq![digit_char(n)]
    } else {
        decimal(n / 10).push(digit_char(n % 10))
    }
}

/// Appends the character of one decimal digit.
fn append_digit(s: &mut String, d: u32)
    requires
        d < 10,
    ensures
        final(s)@ == old(s)@.push(digit_char(d as nat)),
{
    let t: &str = if d == 0 {
        "0"
    } else if d == 1 {
        "1"
    } else if d == 2 {
        "2"
    } else if d == 3 {
        "3"
    } else if d == 4 {
        "4"
    } else if d == 5 {
        "5"
    } else if d == 6 {
        "6"
    } else if d == 7 {
        "7"
    } else if d == 8 {
        "8"
    } else {
        "9"
    };
    proof {
        reveal_strlit("0");
        reveal_strlit("1");
        reveal_strlit("2");
        reveal_strlit("3");
        reveal_strlit("4");
        reveal_strlit("5");
        reveal_strlit("6");
        reveal_strlit("7");
        reveal_strlit("8");
        reveal_strlit("9");
    }
    s.append(t);
    assert(s@ =~= old(s)@.push(digit_char(d as nat)));
}

/// Appends the decimal notation of `n`.
pub fn append_decimal(s: &mut String, n: u32)
    ensures
        final(s)@ == old(s)@ + decimal(n as nat),
    decreases n,
{
    if n >= 10 {
        append_decimal(s, n / 10);
        append_digit(s, n % 10);
        assert(final(s)@ =~= old(s)@ + decimal(n as nat));
    } else {
        append_digit(s, n);
        assert(final(s)@ =~= old(s)@ + decimal(n as nat));
    }
}

/// Address of a cube in a recursive 2x2x2 subdivision of space.
#[derive(Debug, Clone, Copy, PartialEq, Eq, Hash, Structural)]
pub struct OctreeKey {
    pub depth: u32,
    pub x: u32,
    pub y: u32,
    pub z: u32,
}

/// The `i`-th child (0..8) of the cube `(d, x, y, z)`: bit 0 of `i` adds one
/// along x, bit 1 along y, bit 2 along z.
pub open spec fn child_key(d: int, x: int, y: int, z: int, i: int) -> (int, int, int, int) {
    (d + 1, 2 * x + i % 2, 2 * y + (i / 2) % 2, 2 * z + i / 4)
}

/// The text form `depth-x-y-z` of a key.
pub open spec fn key_text(k: OctreeKey) -> Seq<char> {
    decimal(k.depth as nat) + seq!['-'] + decimal(k.x as nat) + seq!['-'] + decimal(k.y as nat)
        + seq!['-'] + decimal(k.z as nat)
}

impl OctreeKey {
    pub fn new(depth: u32, x: u32, y: u32, z: u32) -> (r: OctreeKey)
        ensures
            r.depth == depth,
            r.x == x,
            r.y == y,
            r.z == z,
    {
        OctreeKey { depth, x, y, z }
    }

    /// The key of the whole space, `(0, 0, 0, 0)`.
    pub fn root() -> (r: OctreeKey)
        ensures
            r.depth == 0 && r.x == 0 && r.y == 0 && r.z == 0,
    {
        OctreeKey::new(0, 0, 0, 0)
    }

    /// Whether the children of this key are representable.
    pub open spec fn has_children(&self) -> bool {
        &&& self.depth < u32::MAX
        &&& 2 * self.x + 1 <= u32::MAX
        &&& 2 * self.y + 1 <= u32::MAX
        &&& 2 * self.z + 1 <= u32::MAX
    }

    /// The eight keys one level deeper, in the order x fastest, then y, then z.
    pub fn children(&self) -> (r: [OctreeKey; 8])
        requires
            self.has_children(),
        ensures
            forall|i: int|
                #![trigger r@[i]]
                0 <= i < 8 ==> (r@[i].depth as int, r@[i].x as int, r@[i].y as int, r@[i].z as int)
                    == child_key(self.depth as int, self.x as int, self.y as int, self.z as int, i),
    {
        let d = self.depth + 1;
        let x = self.x * 2;
        let y = self.y * 2;
        let z = self.z * 2;
        let r = [
            OctreeKey::new(d, x, y, z),
            OctreeKey::new(d, x + 1, y, z),
            OctreeKey::new(d, x, y + 1, z),
            OctreeKey::new(d, x + 1, y + 1, z),
            OctreeKey::new(d, x, y, z + 1),
            OctreeKey::new(d, x + 1, y, z + 1),
            OctreeKey::new(d, x, y + 1, z + 1),
            OctreeKey::new(d, x + 1, y + 1, z + 1),
        ];
        assert forall|i: int| 0 <= i < 8 implies (r@[i].depth as int, r@[i].x as int, r@[i].y as int, r@[i].z as int)
            == child_key(self.depth as int, self.x as int, self.y as int, self.z as int, i) by {
            assert(i == 0 || i == 1 || i == 2 || i == 3 || i == 4 || i == 5 || i == 6 || i == 7);
        }
        r
    }

    /// The text form `depth-x-y-z`, used as a tile name and a hierarchy key.
    pub fn to_path_string(&self) -> (r: String)
        ensures
            r@ == key_text(*self),
    {
        let mut s = String::new();
        proof {
            reveal_strlit("-");
        }
        append_decimal(&mut s, self.depth);
        s.append("-");
        append_decimal(&mut s, self.x);
        s.append("-");
        append_decimal(&mut s, self.y);
        s.append("-");
        append_decimal(&mut s, self.z);
        assert(s@ =~= key_text(*self));
        s
    }
}

} // verus!
