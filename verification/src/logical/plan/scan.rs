use vstd::prelude::*;

use crate::datasource::DataSource;
use std::sync::Arc;

verus! {

/// A leaf plan: scan a data source, optionally pushing down a projection of
/// column names for the source to honor.
#[derive(Debug)]
pub struct Scan<S: DataSource> {
    pub path: String,
    pub source: Arc<S>,
    pub projection: Option<Vec<String>>,
}

impl<S: DataSource> Scan<S> {
    /// Builds a scan of a source.
    pub fn new(path: String, source: Arc<S>, projection: Option<Vec<String>>) -> (r: Scan<S>)
        ensures
            r.path == path,
            r.source == source,
            r.projection == projection,
    {
        Scan { path, source, projection }
    }
}

/// The text of an optional projection list, as the scan node renders it:
/// `None`, or the names quoted and bracketed.
pub open spec fn proj_text(p: Option<Seq<Seq<char>>>) -> Seq<char> {
    match p {
        None => seq!['N', 'o', 'n', 'e'],
        Some(names) => seq!['['] + quoted_names(names, 0) + seq![']'],
    }
}

/// The names from position `i` on, each in double quotes, separated by
/// comma and space.
pub open spec fn quoted_names(names: Seq<Seq<char>>, i: int) -> Seq<char>
    decreases names.len() - i,
{
    if i < 0 || i >= names.len() {
        Seq::empty()
    } else if i == names.len() - 1 {
        seq!['"'] + names[i] + seq!['"']
    } else {
        seq!['"'] + names[i] + seq!['"', ',', ' '] + quoted_names(names, i + 1)
    }
}

/// Renders the names from position `i` on, quoted and comma-separated.
pub fn render_quoted_names(names: &Vec<String>, i: usize) -> (r: String)
    requires
        i <= names@.len(),
    ensures
        r@ == quoted_names(names.deep_view(), i as int),
    decreases names@.len() - i,
{
    if i >= names.len() {
        let s = String::new();
        proof {
            assert(s@ =~= quoted_names(names.deep_view(), i as int));
        }
        s
    } else {
        let quote = String::from_str("\"");
        proof {
            reveal_strlit("\"");
            assert(quote@ =~= seq!['"']);
        }
        let mut s = quote.clone();
        s.append(names[i].as_str());
        s.append(quote.as_str());
        if i + 1 < names.len() {
            let sep = String::from_str(", ");
            proof {
                reveal_strlit(", ");
                assert(sep@ =~= seq![',', ' ']);
            }
            s.append(sep.as_str());
            let rest = render_quoted_names(names, i + 1);
            s.append(rest.as_str());
        }
        proof {
            assert(names.deep_view()[i as int] == names@[i as int]@);
            assert(s@ =~= quoted_names(names.deep_view(), i as int));
        }
        s
    }
}

} // verus!
