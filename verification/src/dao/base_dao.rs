//! What the data access layer computes without the store.

use vstd::prelude::*;
use crate::text::{chars_of, lemma_split_by_nonempty, push_str, split_by, split_str, string_from_chars, trim, trim_str, views};

verus! {

/// The data access layer's own computations; the statements it runs against
/// the store are made by the application around this library.
pub struct BaseDao;

/// Each piece trimmed, put in single quotes and followed by a comma.
pub open spec fn quoted_pieces(pieces: Seq<Seq<char>>) -> Seq<char>
    decreases pieces.len(),
{
    if pieces.len() == 0 {
        Seq::empty()
    } else {
        quoted_pieces(pieces.drop_last()) + "'"@ + trim(pieces.last()) + "',"@
    }
}

/// The text of an SQL list of the values in `param` separated by `sep`: each
/// value trimmed and put in single quotes, the values separated by commas.
pub open spec fn quoted_list(param: Seq<char>, sep: char) -> Seq<char> {
    quoted_pieces(split_by(param, sep)).drop_last()
}

impl BaseDao {
    /// The SQL list of the values in `param` separated by `spliter_char`
    /// (`a, b` gives `'a','b'`).
    pub fn split_params(param: &str, spliter_char: char) -> (r: String)
        ensures
            r@ == quoted_list(param@, spliter_char),
    {
        let param_arr = split_str(param, spliter_char);
        proof {
            lemma_split_by_nonempty(param@, spliter_char);
        }
        let mut param_in_str = String::new();
        let mut i: usize = 0;
        assert(views(param_arr@).take(0) =~= Seq::<Seq<char>>::empty());
        while i < param_arr.len()
            invariant
                i <= param_arr@.len(),
                views(param_arr@) == split_by(param@, spliter_char),
                param_in_str@ == quoted_pieces(views(param_arr@).take(i as int)),
            decreases param_arr@.len() - i,
        {
            let p = trim_str(param_arr[i].as_str());
            push_str(&mut param_in_str, "'");
            push_str(&mut param_in_str, p.as_str());
            push_str(&mut param_in_str, "',");
            let ghost pieces = views(param_arr@);
            assert(pieces.take(i + 1).drop_last() =~= pieces.take(i as int));
            assert(pieces.take(i + 1).last() == param_arr@[i as int]@);
            assert(param_in_str@ =~= quoted_pieces(pieces.take(i + 1)));
            i = i + 1;
        }
        assert(views(param_arr@).take(param_arr@.len() as int) =~= views(param_arr@));
        let cs = chars_of(param_in_str.as_str());
        proof {
            reveal_strlit("',");
            let pieces = views(param_arr@);
            assert(quoted_pieces(pieces).len() >= "',"@.len());
        }
        string_from_chars(&cs, 0, cs.len() - 1)
    }
}

} // verus!
