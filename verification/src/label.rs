//! Labels under which derived assets are registered: a kind and the
//! zero-based position of the element in the decoder's list, as in
//! `Material3`.

use vstd::prelude::*;
use vstd::string::*;

verus! {

/// The character of a decimal digit.
pub open spec fn digit_of(d: nat) -> char
    recommends
        d < 10,
{
    if d == 0 {
        '0'
    } else if d == 1 {
        '1'
    } else if d == 2 {
        '2'
    } else if d == 3 {
        '3'
    } else if d == 4 {
        '4'
    } else if d == 5 {
        '5'
    } else if d == 6 {
        '6'
    } else if d == 7 {
        '7'
    } else if d == 8 {
        '8'
    } else {
        '9'
    }
}

/// A number in decimal, without leading zeros.
pub open spec fn decimal(n: nat) -> Seq<char>
    decreases n,
{
    if n < 10 {
        seq![digit_of(n)]
    } else {
        decimal(n / 10).push(digit_of(n % 10))
    }
}

/// The label of the material at `index`.
pub open spec fn material_label_of(index: nat) -> Seq<char> {
    "Material"@ + decimal(index)
}

/// The label of the mesh at `index`.
pub open spec fn mesh_label_of(index: nat) -> Seq<char> {
    "Mesh"@ + decimal(index)
}

/// The label of the scene at `index`.
pub open spec fn scene_label_of(index: nat) -> Seq<char> {
    "Scene"@ + decimal(index)
}

/// A decimal digit as text.
fn digit(d: usize) -> (r: &'static str)
    requires
        d < 10,
    ensures
        r@ == seq![digit_of(d as nat)],
{
    proof {
        reveal_strlit("0");
        reveal_strlit("1");
        reveal_strlit("2");
        reveal_strlit("3");
        reveal_strlit("4");
        reveal_strlit("5");
        reveal_strlit("6");
        reveal_strlit("7");
        reveal_strlit("8");
        reveal_strlit("9");
    }
    let r = if d == 0 {
        "0"
    } else if d == 1 {
        "1"
    } else if d == 2 {
        "2"
    } else if d == 3 {
        "3"
    } else if d == 4 {
        "4"
    } else if d == 5 {
        "5"
    } else if d == 6 {
        "6"
    } else if d == 7 {
        "7"
    } else if d == 8 {
        "8"
    } else {
        "9"
    };
    assert(r@ =~= seq![digit_of(d as nat)]);
    r
}

/// Appends a number in decimal to a text.
fn append_decimal(text: &mut String, n: usize)
    ensures
        final(text)@ == old(text)@ + decimal(n as nat),
    decreases n,
{
    if n >= 10 {
        append_decimal(text, n / 10);
    }
    text.append(digit(n % 10));
    assert(text@ =~= old(text)@ + decimal(n as nat));
}

/// A prefix followed by a number in decimal.
fn numbered(prefix: &str, n: usize) -> (r: String)
    ensures
        r@ == prefix@ + decimal(n as nat),
{
    let mut text = String::from_str(prefix);
    append_decimal(&mut text, n);
    text
}

/// The label of the material at `index`: `Material` and the index.
pub fn material_label(index: usize) -> (r: String)
    ensures
        r@ == material_label_of(index as nat),
{
    numbered("Material", index)
}

/// The label of the mesh at `index`: `Mesh` and the index.
pub fn mesh_label(index: usize) -> (r: String)
    ensures
        r@ == mesh_label_of(index as nat),
{
    numbered("Mesh", index)
}

/// The label of the scene at `index`: `Scene` and the index.
pub fn scene_label(index: usize) -> (r: String)
    ensures
        r@ == scene_label_of(index as nat),
{
    numbered("Scene", index)
}

/// Two numbers with one decimal text are one number.
pub proof fn lemma_decimal_injective(a: nat, b: nat)
    requires
        decimal(a) == decimal(b),
    ensures
        a == b,
    decreases a,
{
    lemma_decimal_len(a);
    lemma_decimal_len(b);
    if a < 10 {
        assert(decimal(a)[0] == digit_of(a));
        assert(decimal(b)[0] == digit_of(b));
    } else {
        let x = decimal(a / 10);
        let y = decimal(b / 10);
        let da = digit_of(a % 10);
        let db = digit_of(b % 10);
        assert(decimal(a) == x.push(da));
        assert(decimal(b) == y.push(db));
        assert(x.push(da).drop_last() =~= x);
        assert(y.push(db).drop_last() =~= y);
        assert(x.push(da).last() == da);
        assert(y.push(db).last() == db);
        assert(x == y);
        assert(da == db);
        lemma_decimal_injective(a / 10, b / 10);
        assert(a % 10 == b % 10);
    }
}

/// A number below ten has one digit, any other more than one.
pub proof fn lemma_decimal_len(n: nat)
    ensures
        decimal(n).len() >= 1,
        n < 10 <==> decimal(n).len() == 1,
    decreases n,
{
    if n >= 10 {
        lemma_decimal_len(n / 10);
    }
}

/// Labels of one kind differ where the indices differ.
pub proof fn lemma_labels_differ(prefix: Seq<char>, a: nat, b: nat)
    requires
        a != b,
    ensures
        prefix + decimal(a) != prefix + decimal(b),
        material_label_of(a) != material_label_of(b),
        mesh_label_of(a) != mesh_label_of(b),
        scene_label_of(a) != scene_label_of(b),
{
    assert forall|p: Seq<char>| p + decimal(a) != p + decimal(b) by {
        if p + decimal(a) == p + decimal(b) {
            let x = p + decimal(a);
            let y = p + decimal(b);
            assert(x.len() == y.len());
            assert(x.subrange(p.len() as int, x.len() as int) =~= decimal(a));
            assert(y.subrange(p.len() as int, y.len() as int) =~= decimal(b));
            lemma_decimal_injective(a, b);
        }
    }
}

} // verus!
