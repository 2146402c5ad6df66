use vstd::prelude::*;

verus! {

/// One attribute value of a stored record, by its type tag.
#[derive(Clone, Debug)]
pub enum Attr {
    /// A string-typed value.
    Text(String),
    /// A number-typed value, in its decimal text form.
    Number(String),
    /// A value of any other type; the text describes it.
    Unsupported(String),
}

/// One stored record: attribute names with their values.
#[derive(Clone, Debug)]
pub struct Record {
    pub fields: Vec<(String, Attr)>,
}

/// Why a record could not be read.
#[derive(Clone, Debug, PartialEq, Eq)]
pub enum RecordError {
    /// The named attribute holds a value that is neither string nor number.
    UnsupportedAttributeType(String),
}

/// The value of the first field named `name`, if any.
pub open spec fn lookup(fields: Seq<(String, Attr)>, name: Seq<char>) -> Option<Attr>
    decreases fields.len(),
{
    if fields.len() == 0 {
        None
    } else if fields[0].0@ == name {
        Some(fields[0].1)
    } else {
        lookup(fields.drop_first(), name)
    }
}

/// What reading the attribute `name` of a record gives: its text where it is
/// a string or a number, nothing where it is absent, an error otherwise.
pub open spec fn attribute_text(fields: Seq<(String, Attr)>, name: Seq<char>) -> Result<
    Option<Seq<char>>,
    Seq<char>,
> {
    match lookup(fields, name) {
        None => Ok(None),
        Some(Attr::Text(t)) => Ok(Some(t@)),
        Some(Attr::Number(t)) => Ok(Some(t@)),
        Some(Attr::Unsupported(_)) => Err(name),
    }
}

proof fn lemma_lookup_skip(fields: Seq<(String, Attr)>, name: Seq<char>, i: int)
    requires
        0 <= i < fields.len(),
        forall|j: int| 0 <= j < i ==> (#[trigger] fields[j]).0@ != name,
    ensures
        lookup(fields, name) == lookup(fields.subrange(i, fields.len() as int), name),
    decreases i,
{
    if i > 0 {
        assert(fields[0].0@ != name);
        assert forall|j: int| 0 <= j < i - 1 implies (
        #[trigger] fields.drop_first()[j]).0@ != name by {
            assert(fields.drop_first()[j] == fields[j + 1]);
        }
        lemma_lookup_skip(fields.drop_first(), name, i - 1);
        assert(fields.drop_first().subrange(i - 1, fields.len() - 1) =~= fields.subrange(
            i,
            fields.len() as int,
        ));
    } else {
        assert(fields.subrange(0, fields.len() as int) =~= fields);
    }
}

proof fn lemma_lookup_absent(fields: Seq<(String, Attr)>, name: Seq<char>)
    requires
        forall|j: int| 0 <= j < fields.len() ==> (#[trigger] fields[j]).0@ != name,
    ensures
        lookup(fields, name) is None,
    decreases fields.len(),
{
    if fields.len() > 0 {
        assert(fields[0].0@ != name);
        assert forall|j: int| 0 <= j < fields.drop_first().len() implies (
        #[trigger] fields.drop_first()[j]).0@ != name by {
            assert(fields.drop_first()[j] == fields[j + 1]);
        }
        lemma_lookup_absent(fields.drop_first(), name);
    }
}

/// Position of the first field named `name`.
fn find_field(fields: &Vec<(String, Attr)>, name: &String) -> (r: Option<usize>)
    ensures
        r matches Some(i) ==> i < fields@.len() && lookup(fields@, name@) == Some(fields@[i as int].1),
        r is None ==> lookup(fields@, name@) is None,
{
    let mut i: usize = 0;
    while i < fields.len()
        invariant
            i <= fields@.len(),
            forall|j: int| 0 <= j < i ==> (#[trigger] fields@[j]).0@ != name@,
        decreases fields@.len() - i,
    {
        if fields[i].0 == *name {
            proof {
                lemma_lookup_skip(fields@, name@, i as int);
            }
            return Some(i);
        }
        i = i + 1;
    }
    proof {
        lemma_lookup_absent(fields@, name@);
    }
    None
}

/// Reads the attribute `name` of a record as text: a string or a number gives
/// its text, an absent attribute gives `None`, and any other type is an error.
pub fn get_attribute_values_str(item: &Record, name: &String) -> (r: Result<
    Option<String>,
    RecordError,
>)
    ensures
        match attribute_text(item.fields@, name@) {
            Ok(None) => r matches Ok(None),
            Ok(Some(t)) => r matches Ok(Some(v)) && v@ == t,
            Err(n) => r matches Err(RecordError::UnsupportedAttributeType(m)) && m@ == n,
        },
{
    match find_field(&item.fields, name) {
        None => Ok(None),
        Some(i) => match &item.fields[i].1 {
            Attr::Text(t) => Ok(Some(t.clone())),
            Attr::Number(t) => Ok(Some(t.clone())),
            Attr::Unsupported(_) => Err(RecordError::UnsupportedAttributeType(name.clone())),
        },
    }
}

} // verus!
