//! The endings that a program's file may have on the search path.

use vstd::prelude::*;

verus! {

/// What stands between two endings in the list of the operating system.
pub const SEPARATOR: u8 = 0x3b;

/// The upper-case form of an ASCII letter; every other byte as it is.
pub open spec fn upper_spec(byte: u8) -> u8 {
    if 0x61 <= byte <= 0x7a {
        (byte - 0x20) as u8
    } else {
        byte
    }
}

/// The upper-case form of an ASCII letter; every other byte as it is.
pub fn upper(byte: u8) -> (up: u8)
    ensures
        up == upper_spec(byte),
{
    if 0x61 <= byte && byte <= 0x7a {
        byte - 0x20
    } else {
        byte
    }
}

/// The pieces of `bytes` between separators, in order: a separator
/// begins a new piece, and every other byte goes to the end of the last
/// piece. There is one piece more than there are separators; a piece may
/// be empty.
pub open spec fn split_spec(bytes: Seq<u8>, separator: u8) -> Seq<Seq<u8>>
    decreases bytes.len(),
{
    if bytes.len() == 0 {
        seq![Seq::<u8>::empty()]
    } else {
        let before = split_spec(bytes.drop_last(), separator);
        if bytes.last() == separator {
            before.push(Seq::<u8>::empty())
        } else {
            before.drop_last().push(before.last().push(bytes.last()))
        }
    }
}

/// The bytes of each of the pieces.
pub open spec fn pieces_view(pieces: Seq<Vec<u8>>) -> Seq<Seq<u8>> {
    pieces.map_values(|piece: Vec<u8>| piece@)
}

/// The number of separators in `bytes`.
pub open spec fn separators(bytes: Seq<u8>, separator: u8) -> nat
    decreases bytes.len(),
{
    if bytes.len() == 0 {
        0
    } else {
        separators(bytes.drop_last(), separator) + if bytes.last() == separator {
            1nat
        } else {
            0nat
        }
    }
}

/// There is one piece more than there are separators, and no piece
/// holds a separator.
pub proof fn lemma_split(bytes: Seq<u8>, separator: u8)
    ensures
        split_spec(bytes, separator).len() == separators(bytes, separator) + 1,
        forall|i: int, j: int|
            0 <= i < split_spec(bytes, separator).len() && 0 <= j < split_spec(
                bytes,
                separator,
            )[i].len() ==> (#[trigger] split_spec(bytes, separator)[i][j]) != separator,
    decreases bytes.len(),
{
    if bytes.len() > 0 {
        lemma_split(bytes.drop_last(), separator);
    }
}

/// The pieces of `bytes` between separators, in order, with every ASCII
/// letter in upper case when `raise` is set.
pub fn split(bytes: &[u8], separator: u8, raise: bool) -> (pieces: Vec<Vec<u8>>)
    ensures
        pieces_view(pieces@) == if raise {
            split_spec(bytes@.map_values(|byte: u8| upper_spec(byte)), separator)
        } else {
            split_spec(bytes@, separator)
        },
{
    let ghost source = if raise {
        bytes@.map_values(|byte: u8| upper_spec(byte))
    } else {
        bytes@
    };
    let mut pieces: Vec<Vec<u8>> = Vec::new();
    let mut current: Vec<u8> = Vec::new();
    let mut i: usize = 0;
    proof {
        assert(source.take(0) =~= Seq::<u8>::empty());
        assert(pieces_view(pieces@).push(current@) =~= split_spec(source.take(0), separator));
    }
    while i < bytes.len()
        invariant
            i <= bytes.len(),
            source.len() == bytes@.len(),
            forall|j: int| 0 <= j < bytes@.len() ==> source[j] == if raise {
                upper_spec(bytes@[j])
            } else {
                bytes@[j]
            },
            pieces_view(pieces@).push(current@) == split_spec(source.take(i as int), separator),
        decreases bytes.len() - i,
    {
        let byte = if raise {
            upper(bytes[i])
        } else {
            bytes[i]
        };
        let ghost before = split_spec(source.take(i as int), separator);
        proof {
            assert(source.take(i + 1).drop_last() =~= source.take(i as int));
            assert(source.take(i + 1).last() == byte);
        }
        if byte == separator {
            let ghost done = pieces_view(pieces@);
            pieces.push(current);
            current = Vec::new();
            proof {
                assert(pieces_view(pieces@) =~= before);
                assert(pieces_view(pieces@).push(current@) =~= before.push(Seq::<u8>::empty()));
            }
        } else {
            let ghost last = current@;
            current.push(byte);
            proof {
                assert(before.last() == last);
                assert(before.drop_last() =~= pieces_view(pieces@));
                assert(pieces_view(pieces@).push(current@) =~= before.drop_last().push(
                    before.last().push(byte),
                ));
            }
        }
        i += 1;
    }
    proof {
        assert(source.take(bytes@.len() as int) =~= source);
    }
    let ghost done = pieces_view(pieces@);
    pieces.push(current);
    proof {
        assert(pieces_view(pieces@) =~= done.push(current@));
    }
    pieces
}

/// The endings to try after a program's name, in order.
///
/// Elsewhere than on Windows a program's file has the program's name:
/// the one ending is the empty one. On Windows the endings are listed by
/// the operating system, separated by [`SEPARATOR`]: the empty ending
/// comes first, then the listed ones in upper case, each of them twice
/// over; without a list there is no search.
pub open spec fn executable_suffixes_spec(windows: bool, path_ext: Option<Seq<u8>>) -> Option<
    Seq<Seq<u8>>,
> {
    if !windows {
        Some(seq![Seq::<u8>::empty()])
    } else {
        match path_ext {
            None => None,
            Some(list) => {
                let listed = split_spec(list.map_values(|byte: u8| upper_spec(byte)), SEPARATOR);
                Some(seq![Seq::<u8>::empty()] + listed + listed)
            },
        }
    }
}

/// The outcome of [`executable_suffixes`], with each ending as its
/// bytes.
pub open spec fn suffixes_view(suffixes: Option<Vec<Vec<u8>>>) -> Option<Seq<Seq<u8>>> {
    match suffixes {
        Some(suffixes) => Some(pieces_view(suffixes@)),
        None => None,
    }
}

/// The endings to try after a program's name, in order. `windows` says
/// whether the search is on Windows; `path_ext` is the operating system's
/// list of endings, where it has one.
pub fn executable_suffixes(windows: bool, path_ext: Option<&[u8]>) -> (suffixes: Option<
    Vec<Vec<u8>>,
>)
    ensures
        suffixes_view(suffixes) == executable_suffixes_spec(
            windows,
            match path_ext {
                Some(list) => Some(list@),
                None => None,
            },
        ),
{
    let mut suffixes: Vec<Vec<u8>> = Vec::new();
    suffixes.push(Vec::new());
    if !windows {
        proof {
            assert(pieces_view(suffixes@) =~= seq![Seq::<u8>::empty()]);
        }
        return Some(suffixes);
    }
    let list = match path_ext {
        Some(list) => list,
        None => {
            return None;
        },
    };
    let mut first = split(list, SEPARATOR, true);
    let mut second = split(list, SEPARATOR, true);
    let ghost listed = pieces_view(first@);
    let ghost head = suffixes@;
    let ghost one = first@;
    let ghost two = second@;
    suffixes.append(&mut first);
    suffixes.append(&mut second);
    proof {
        assert(suffixes@ =~= head + one + two);
        assert(pieces_view(suffixes@) =~= seq![Seq::<u8>::empty()] + listed + listed);
    }
    Some(suffixes)
}

} // verus!
