//! Where a tile lives in the store: `{root}/{z}/{x}/{y}.png`.

use vstd::prelude::*;

verus! {

/// A tile's address: zoom level, column and row.  Values beyond the grid of
/// the zoom level are accepted; they name tiles outside the usual picture.
#[derive(Clone, Copy, Debug, PartialEq, Eq, Structural)]
pub struct TileKey {
    pub z: u32,
    pub x: u32,
    pub y: u32,
}

/// The character of a decimal digit.
pub open spec fn digit(d: nat) -> char
    recommends
        d < 10,
{
    (48 + d) as char
}

/// A number in decimal, without leading zeros.
pub open spec fn decimal(n: nat) -> Seq<char>
    decreases n,
{
    if n < 10 {
        seq![digit(n)]
    } else {
        decimal(n / 10).push(digit(n % 10))
    }
}

/// The directory that holds the tiles of one column: `{root}/{z}/{x}`.
pub open spec fn tile_dir_of(root: Seq<char>, key: TileKey) -> Seq<char> {
    root + seq!['/'] + decimal(key.z as nat) + seq!['/'] + decimal(key.x as nat)
}

/// The file of a tile: `{root}/{z}/{x}/{y}.png`.
pub open spec fn tile_path_of(root: Seq<char>, key: TileKey) -> Seq<char> {
    tile_dir_of(root, key) + seq!['/'] + decimal(key.y as nat) + seq!['.', 'p', 'n', 'g']
}

fn digit_str(d: u32) -> (s: &'static str)
    requires
        d < 10,
    ensures
        s@ == seq![digit(d as nat)],
{
    proof {
        reveal_strlit("0");
        reveal_strlit("1");
        reveal_strlit("2");
        reveal_strlit("3");
        reveal_strlit("4");
        reveal_strlit("5");
        reveal_strlit("6");
        reveal_strlit("7");
        reveal_strlit("8");
        reveal_strlit("9");
    }
    let s: &'static str = match d {
        0 => "0",
        1 => "1",
        2 => "2",
        3 => "3",
        4 => "4",
        5 => "5",
        6 => "6",
        7 => "7",
        8 => "8",
        _ => "9",
    };
    assert(s@ =~= seq![digit(d as nat)]);
    s
}

/// Appends `n` in decimal to `out`.
pub fn push_decimal(out: &mut String, n: u32)
    ensures
        final(out)@ == old(out)@ + decimal(n as nat),
    decreases n,
{
    if n >= 10 {
        push_decimal(out, n / 10);
    }
    out.append(digit_str(n % 10));
    assert(out@ =~= old(out)@ + decimal(n as nat));
}

/// The directory of the tile's column under `root`.
pub fn tile_dir(root: &str, key: TileKey) -> (dir: String)
    ensures
        dir@ == tile_dir_of(root@, key),
{
    proof {
        reveal_strlit("/");
    }
    let mut dir: String = String::from_str(root);
    dir.append("/");
    push_decimal(&mut dir, key.z);
    dir.append("/");
    push_decimal(&mut dir, key.x);
    assert(dir@ =~= tile_dir_of(root@, key));
    dir
}

/// The file of the tile under `root`.
pub fn tile_path(root: &str, key: TileKey) -> (path: String)
    ensures
        path@ == tile_path_of(root@, key),
{
    proof {
        reveal_strlit("/");
        reveal_strlit(".png");
    }
    let mut path: String = tile_dir(root, key);
    path.append("/");
    push_decimal(&mut path, key.y);
    path.append(".png");
    assert(path@ =~= tile_path_of(root@, key));
    path
}

/// Whether `c` is one of the characters `0` to `9`.
pub open spec fn is_digit(c: char) -> bool {
    48 <= c as int <= 57
}

/// Whether every character of `s` is a digit.
pub open spec fn all_digits(s: Seq<char>) -> bool {
    forall|i: int| 0 <= i < s.len() ==> is_digit(#[trigger] s[i])
}

/// The number that a string of decimal digits stands for.
pub open spec fn number(s: Seq<char>) -> nat
    decreases s.len(),
{
    if s.len() == 0 {
        0
    } else {
        (number(s.drop_last()) * 10 + (s.last() as int - 48)) as nat
    }
}

/// A number in decimal is a string of at least one digit, and reading it
/// back gives the number.
pub proof fn lemma_decimal_reads_back(n: nat)
    ensures
        decimal(n).len() >= 1,
        all_digits(decimal(n)),
        number(decimal(n)) == n,
    decreases n,
{
    if n < 10 {
        assert(decimal(n).drop_last() =~= Seq::<char>::empty());
        assert(number(decimal(n).drop_last()) == 0);
    } else {
        lemma_decimal_reads_back(n / 10);
        assert(decimal(n).drop_last() =~= decimal(n / 10));
        assert(decimal(n).last() == digit(n % 10));
    }
}

/// Two strings of digits, each followed by the same character that is not a
/// digit and then by anything, are equal only if the digits are the same and
/// what follows is the same.
proof fn lemma_split_at_separator(
    d1: Seq<char>,
    r1: Seq<char>,
    d2: Seq<char>,
    r2: Seq<char>,
    sep: char,
)
    requires
        !is_digit(sep),
        all_digits(d1),
        all_digits(d2),
        d1 + seq![sep] + r1 == d2 + seq![sep] + r2,
    ensures
        d1 == d2,
        r1 == r2,
{
    let a: Seq<char> = d1 + seq![sep] + r1;
    let b: Seq<char> = d2 + seq![sep] + r2;
    if d1.len() < d2.len() {
        assert(a[d1.len() as int] == sep);
        assert(b[d1.len() as int] == d2[d1.len() as int]);
        assert(false);
    }
    if d2.len() < d1.len() {
        assert(b[d2.len() as int] == sep);
        assert(a[d2.len() as int] == d1[d2.len() as int]);
        assert(false);
    }
    assert(d1 =~= a.subrange(0, d1.len() as int));
    assert(d2 =~= b.subrange(0, d2.len() as int));
    assert(r1 =~= a.subrange(d1.len() as int + 1, a.len() as int));
    assert(r2 =~= b.subrange(d2.len() as int + 1, b.len() as int));
}

/// A path is taken apart in one way only: where two paths under the same
/// root are equal, their three strings of digits are equal, each to each.
proof fn lemma_parts_of_path(
    root: Seq<char>,
    az: Seq<char>,
    ax: Seq<char>,
    ay: Seq<char>,
    bz: Seq<char>,
    bx: Seq<char>,
    by: Seq<char>,
)
    requires
        all_digits(az),
        all_digits(ax),
        all_digits(ay),
        all_digits(bz),
        all_digits(bx),
        all_digits(by),
        root + seq!['/'] + az + seq!['/'] + ax + seq!['/'] + ay + seq!['.', 'p', 'n', 'g'] == root
            + seq!['/'] + bz + seq!['/'] + bx + seq!['/'] + by + seq!['.', 'p', 'n', 'g'],
    ensures
        az == bz,
        ax == bx,
        ay == by,
{
    let head: Seq<char> = root + seq!['/'];
    let png: Seq<char> = seq!['p', 'n', 'g'];
    let a_row: Seq<char> = ay + seq!['.'] + png;
    let b_row: Seq<char> = by + seq!['.'] + png;
    let a_col: Seq<char> = ax + seq!['/'] + a_row;
    let b_col: Seq<char> = bx + seq!['/'] + b_row;
    let a_tail: Seq<char> = az + seq!['/'] + a_col;
    let b_tail: Seq<char> = bz + seq!['/'] + b_col;
    let a_path: Seq<char> = root + seq!['/'] + az + seq!['/'] + ax + seq!['/'] + ay + seq![
        '.',
        'p',
        'n',
        'g',
    ];
    let b_path: Seq<char> = root + seq!['/'] + bz + seq!['/'] + bx + seq!['/'] + by + seq![
        '.',
        'p',
        'n',
        'g',
    ];
    assert(a_tail == b_tail) by {
        assert(a_path =~= head + a_tail);
        assert(b_path =~= head + b_tail);
        assert(a_tail =~= (head + a_tail).subrange(head.len() as int, (head + a_tail).len() as int));
        assert(b_tail =~= (head + b_tail).subrange(head.len() as int, (head + b_tail).len() as int));
    }
    lemma_split_at_separator(az, a_col, bz, b_col, '/');
    lemma_split_at_separator(ax, a_row, bx, b_row, '/');
    lemma_split_at_separator(ay, png, by, png, '.');
}

/// Different tiles have different files: under one root, the path of a tile
/// determines its zoom level, column and row.
pub proof fn lemma_tile_path_injective(root: Seq<char>, a: TileKey, b: TileKey)
    requires
        tile_path_of(root, a) == tile_path_of(root, b),
    ensures
        a == b,
{
    lemma_decimal_reads_back(a.z as nat);
    lemma_decimal_reads_back(a.x as nat);
    lemma_decimal_reads_back(a.y as nat);
    lemma_decimal_reads_back(b.z as nat);
    lemma_decimal_reads_back(b.x as nat);
    lemma_decimal_reads_back(b.y as nat);
    lemma_parts_of_path(
        root,
        decimal(a.z as nat),
        decimal(a.x as nat),
        decimal(a.y as nat),
        decimal(b.z as nat),
        decimal(b.x as nat),
        decimal(b.y as nat),
    );
}

} // verus!
