//! The directive parser: scans a field's annotation lists for the one
//! recognized per-field directive, `builder(each = "name")`, which marks the
//! field as repeated and names its per-element setter.

use vstd::prelude::*;
use crate::schema::{DirectiveList, FieldDesc, MetaEntry, MetaValue};

verus! {

/// The first annotation list carrying the recognized keyword, if any; later
/// lists are never consulted.
pub open spec fn spec_first_directive(lists: Seq<DirectiveList>) -> Option<DirectiveList>
    decreases lists.len(),
{
    if lists.len() == 0 {
        None
    } else if lists[0].keyword@ == "builder"@ {
        Some(lists[0])
    } else {
        spec_first_directive(lists.drop_first())
    }
}

/// The per-element setter name a recognized list yields: it must consist of
/// exactly one entry, `each = "<name>"`. Anything else (wrong key,
/// non-string value, a non-pair entry, more or fewer entries) yields `None`.
pub open spec fn spec_each_of_list(l: DirectiveList) -> Option<Seq<char>> {
    if l.entries@.len() == 1 {
        match l.entries@[0] {
            MetaEntry::KeyValue { key, value } => if key@ == "each"@ {
                match value {
                    MetaValue::StrValue(s) => Some(s@),
                    MetaValue::OtherValue => None,
                }
            } else {
                None
            },
            MetaEntry::OtherEntry => None,
        }
    } else {
        None
    }
}

/// The directive parse outcome for a field: `Ok(None)` when no annotation
/// list carries the recognized keyword, `Ok(Some(name))` on a valid
/// directive, `Err(())` when the recognized list is malformed.
pub open spec fn spec_each_name(f: FieldDesc) -> Result<Option<Seq<char>>, ()> {
    match spec_first_directive(f.directives@) {
        None => Ok(None),
        Some(l) => match spec_each_of_list(l) {
            Some(n) => Ok(Some(n)),
            None => Err(()),
        },
    }
}

/// Scans the field's annotation lists for the builder directive. Only the
/// first list with the recognized keyword is consulted; a malformed one
/// fails the field (diagnostic: expected `each = ...`), and none at all
/// leaves the field to Required/Optional classification.
pub fn each_name(f: &FieldDesc) -> (r: Result<Option<String>, ()>)
    ensures
        match r {
            Ok(opt) => match opt {
                None => spec_each_name(*f) == Ok::<Option<Seq<char>>, ()>(None),
                Some(s) => spec_each_name(*f) == Ok::<Option<Seq<char>>, ()>(Some(s@)),
            },
            Err(_) => spec_each_name(*f) == Err::<Option<Seq<char>>, ()>(()),
        },
{
    let keyword: String = "builder".to_owned();
    let each_key: String = "each".to_owned();
    let n = f.directives.len();
    let mut i: usize = 0;
    proof {
        assert(f.directives@.skip(0) =~= f.directives@);
    }
    while i < n
        invariant
            n == f.directives@.len(),
            i <= n,
            keyword@ == "builder"@,
            each_key@ == "each"@,
            spec_first_directive(f.directives@) == spec_first_directive(
                f.directives@.skip(i as int),
            ),
        decreases n - i,
    {
        let l = &f.directives[i];
        proof {
            assert(f.directives@.skip(i as int)[0] == f.directives@[i as int]);
        }
        if l.keyword == keyword {
            let r = each_of_list(l);
            match r {
                Some(s) => {
                    return Ok(Some(s));
                },
                None => {
                    return Err(());
                },
            }
        }
        proof {
            assert(f.directives@.skip(i as int).drop_first() =~= f.directives@.skip(i + 1));
        }
        i = i + 1;
    }
    proof {
        assert(f.directives@.skip(n as int) =~= Seq::<DirectiveList>::empty());
    }
    Ok(None)
}

/// Validates one recognized annotation list and extracts the per-element
/// setter name, exactly as `spec_each_of_list` states.
fn each_of_list(l: &DirectiveList) -> (r: Option<String>)
    ensures
        match r {
            Some(s) => spec_each_of_list(*l) == Some(s@),
            None => spec_each_of_list(*l) is None,
        },
{
    let each_key: String = "each".to_owned();
    if l.entries.len() != 1 {
        return None;
    }
    match &l.entries[0] {
        MetaEntry::KeyValue { key, value } => {
            if *key == each_key {
                match value {
                    MetaValue::StrValue(s) => Some(s.clone()),
                    MetaValue::OtherValue => None,
                }
            } else {
                None
            }
        },
        MetaEntry::OtherEntry => None,
    }
}

} // verus!
