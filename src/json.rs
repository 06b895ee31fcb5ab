use vstd::prelude::*;

verus! {

/// The names of the fields, among `fields`, whose text is empty, in order.
pub open spec fn blank_names(fields: Seq<(Seq<char>, Seq<char>)>) -> Seq<Seq<char>>
    decreases fields.len(),
{
    if fields.len() == 0 {
        seq![]
    } else {
        let rest = blank_names(fields.drop_last());
        if fields.last().1.len() == 0 {
            rest.push(fields.last().0)
        } else {
            rest
        }
    }
}

/// A request body whose text fields can be listed by name.
pub trait StrFields {
    /// The name and text of each text field, in declaration order.
    spec fn str_fields(&self) -> Seq<(Seq<char>, Seq<char>)>;

    /// The name and text of each text field, in declaration order.
    fn str_field_list(&self) -> (r: Vec<(&'static str, &str)>)
        ensures
            r@.len() == self.str_fields().len(),
            forall|i: int|
                0 <= i < r@.len() ==> (#[trigger] r@[i]).0@ == self.str_fields()[i].0 && r@[i].1@
                    == self.str_fields()[i].1,
    ;
}

/// A decoded request body.
pub struct Json<T>(pub T);

/// The names of the text fields that a request left empty.
pub struct MissingFields {
    pub missing_fields: Vec<&'static str>,
}

impl<T: StrFields> Json<T> {
    /// The names of the text fields that are empty, in declaration order.
    pub fn iter_all_str_not_set(&self) -> (r: Vec<&'static str>)
        ensures
            r@.map_values(|s: &'static str| s@) == blank_names(self.0.str_fields()),
    {
        let fields = self.0.str_field_list();
        let ghost spec_fields = self.0.str_fields();
        let mut out: Vec<&'static str> = Vec::new();
        let mut i: usize = 0;
        while i < fields.len()
            invariant
                i <= fields@.len(),
                fields@.len() == spec_fields.len(),
                spec_fields == self.0.str_fields(),
                forall|j: int|
                    0 <= j < fields@.len() ==> (#[trigger] fields@[j]).0@ == spec_fields[j].0
                        && fields@[j].1@ == spec_fields[j].1,
                out@.map_values(|s: &'static str| s@) == blank_names(spec_fields.take(i as int)),
            decreases fields@.len() - i,
        {
            let (name, text) = fields[i];
            assert(spec_fields.take(i + 1).drop_last() =~= spec_fields.take(i as int));
            assert(spec_fields.take(i + 1).last() == spec_fields[i as int]);
            if text.is_empty() {
                out.push(name);
                assert(out@.map_values(|s: &'static str| s@) =~= blank_names(
                    spec_fields.take(i as int),
                ).push(name@));
            }
            i = i + 1;
        }
        assert(spec_fields.take(fields@.len() as int) =~= spec_fields);
        out
    }

    /// The names of the text fields that are empty.
    pub fn collect_missing(&self) -> (r: MissingFields)
        ensures
            r.missing_fields@.map_values(|s: &'static str| s@) == blank_names(self.0.str_fields()),
    {
        MissingFields { missing_fields: self.iter_all_str_not_set() }
    }

    /// Whether every text field is non-empty.
    pub fn is_all_str_set(&self) -> (r: bool)
        ensures
            r == (blank_names(self.0.str_fields()).len() == 0),
    {
        let blanks = self.iter_all_str_not_set();
        assert(blanks@.map_values(|s: &'static str| s@).len() == blanks@.len());
        blanks.len() == 0
    }
}

} // verus!
