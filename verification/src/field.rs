//! A simple displayable field: a title, a value and optional one-level subfields.
use vstd::prelude::*;

verus! {

/// A displayable field: a title, a value and, optionally, subfields.
#[derive(Debug, PartialEq, Eq)]
pub struct Field {
    pub title: String,
    pub value: String,
    pub subfields: Option<Vec<Field>>,
}

/// The text of the subfields' lines: for each, a new line, `- `, its title, `: ` and its value.
pub open spec fn subfield_lines(subs: Seq<Field>) -> Seq<char>
    decreases subs.len(),
{
    if subs.len() == 0 {
        seq![]
    } else {
        subfield_lines(subs.drop_last()) + "\n- "@ + subs.last().title@ + ": "@ + subs.last().value@
    }
}

impl Field {
    /// Creates a field without subfields.
    pub fn new(title: &str, value: &str) -> (f: Field)
        ensures
            f.title@ == title@,
            f.value@ == value@,
            f.subfields is None,
    {
        Field { title: String::from_str(title), value: String::from_str(value), subfields: None }
    }

    /// Creates a field with subfields.
    pub fn with_subfields(title: &str, value: &str, subfields: Vec<Field>) -> (f: Field)
        ensures
            f.title@ == title@,
            f.value@ == value@,
            f.subfields == Some(subfields),
    {
        Field { title: String::from_str(title), value: String::from_str(value), subfields: Some(subfields) }
    }

    /// The field's title.
    pub fn title(&self) -> (s: &str)
        ensures
            s@ == self.title@,
    {
        self.title.as_str()
    }

    /// The field's value.
    pub fn value(&self) -> (s: &str)
        ensures
            s@ == self.value@,
    {
        self.value.as_str()
    }

    /// The field's subfields, if it has any.
    pub fn subfields(&self) -> (s: Option<&Vec<Field>>)
        ensures
            s is Some <==> self.subfields is Some,
            s matches Some(v) ==> *v == self.subfields->0,
    {
        match &self.subfields {
            Some(v) => Some(v),
            None => None,
        }
    }

    /// The text form: `title: value`, then a line for each subfield.
    pub open spec fn spec_text(&self) -> Seq<char> {
        self.title@ + ": "@ + self.value@ + match self.subfields {
            Some(subs) => subfield_lines(subs@),
            None => seq![],
        }
    }

    /// The text form, for example `Rates: 3\n- Basic: 1\n- Extended: 2`.
    pub fn to_string(&self) -> (s: String)
        ensures
            s@ == self.spec_text(),
    {
        let mut s = String::from_str("");
        proof {
            reveal_strlit("");
        }
        s.append(self.title.as_str());
        s.append(": ");
        s.append(self.value.as_str());
        if let Some(subs) = &self.subfields {
            let ghost head = s@;
            let mut i: usize = 0;
            proof {
                assert(subfield_lines(subs@.subrange(0, 0)) =~= Seq::<char>::empty());
                assert(s@ =~= head + subfield_lines(subs@.subrange(0, 0)));
            }
            while i < subs.len()
                invariant
                    i <= subs@.len(),
                    s@ == head + subfield_lines(subs@.subrange(0, i as int)),
                decreases subs@.len() - i,
            {
                s.append("\n- ");
                s.append(subs[i].title.as_str());
                s.append(": ");
                s.append(subs[i].value.as_str());
                proof {
                    let p = subs@.subrange(0, i + 1);
                    assert(p.drop_last() =~= subs@.subrange(0, i as int));
                    assert(p.last() == subs@[i as int]);
                    assert(s@ =~= head + subfield_lines(p));
                }
                i = i + 1;
            }
            proof {
                assert(subs@.subrange(0, subs@.len() as int) =~= subs@);
            }
        } else {
            proof {
                assert(s@ =~= s@ + Seq::<char>::empty());
            }
        }
        s
    }
}

} // verus!
