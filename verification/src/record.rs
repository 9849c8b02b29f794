//! The row-producing interface and a basic record that satisfies it.

use vstd::prelude::*;

use crate::text::{int_text, int_to_string, views_of};

verus! {

/// The row-producing interface. A tabular record type gives the labels
/// of its header row and, for each instance, a row of text values, both
/// in field declaration order and always of the same length.
pub trait Tablefy: Sized {
    /// The header row of the type, as character sequences.
    spec fn spec_headers() -> Seq<Seq<char>>;

    /// The row an instance produces, as character sequences.
    spec fn spec_row(&self) -> Seq<Seq<char>>;

    /// The header row and every instance's row have the same length, so
    /// the label at each position describes the row entry at it.
    proof fn headers_match_row(&self)
        ensures
            Self::spec_headers().len() == self.spec_row().len(),
    ;

    /// Retrieves the headers of the table: one label per field, in
    /// declaration order.
    fn get_headers() -> (r: Vec<String>)
        ensures
            views_of(r@) == Self::spec_headers(),
    ;

    /// Turns the contents of an instance into one text value per field,
    /// in declaration order.
    fn into_vec(&self) -> (r: Vec<String>)
        ensures
            views_of(r@) == self.spec_row(),
    ;
}

/// A basic record: a text, two integers, and a text that may be absent.
#[derive(Clone)]
pub struct Basic {
    /// Some text.
    pub something: String,
    /// Some integer.
    pub otherthing: i16,
    /// Some small integer.
    pub newthing: i8,
    /// Some text that may be absent.
    pub maybe: Option<String>,
}

impl Tablefy for Basic {
    open spec fn spec_headers() -> Seq<Seq<char>> {
        seq!["something"@, "otherthing"@, "newthing"@, "maybe"@]
    }

    open spec fn spec_row(&self) -> Seq<Seq<char>> {
        seq![
            self.something@,
            int_text(self.otherthing as int),
            int_text(self.newthing as int),
            match self.maybe {
                Some(s) => s@,
                None => Seq::<char>::empty(),
            },
        ]
    }

    proof fn headers_match_row(&self) {
    }

    fn get_headers() -> (r: Vec<String>) {
        let mut r: Vec<String> = Vec::new();
        r.push(String::from_str("something"));
        r.push(String::from_str("otherthing"));
        r.push(String::from_str("newthing"));
        r.push(String::from_str("maybe"));
        proof {
            assert(views_of(r@) =~= Self::spec_headers());
        }
        r
    }

    fn into_vec(&self) -> (r: Vec<String>) {
        let mut r: Vec<String> = Vec::new();
        r.push(self.something.clone());
        r.push(int_to_string(self.otherthing as i64));
        r.push(int_to_string(self.newthing as i64));
        let maybe = match &self.maybe {
            Some(x) => x.clone(),
            None => String::new(),
        };
        r.push(maybe);
        proof {
            assert(views_of(r@) =~= self.spec_row());
        }
        r
    }
}

} // verus!
