//! Printer options (capabilities) returned by `GetAllOptions`.

use vstd::prelude::*;
use crate::search::lemma_first_with;
use crate::error::CpdbError;
use crate::proxy::RawOption;
use crate::text::str_eq;

verus! {

/// A single printer option with its supported choices.
#[derive(Debug, Clone, PartialEq, Eq)]
pub struct OptionInfo {
    /// The option name, e.g. `"copies"` or `"sides"`.
    pub name: String,
    /// The default value as reported by the backend.
    pub default_value: String,
    /// The option group (e.g. `"General"`), or an empty string when unset.
    pub group: String,
    /// All values the printer supports for this option.
    pub supported_values: Vec<String>,
}

/// The values of a raw supported-value list, unwrapped.
pub open spec fn unwrap_values(raw: Seq<(String,)>) -> Seq<String> {
    raw.map_values(|t: (String,)| t.0)
}

/// `o` carries exactly the data of the raw record `r`.
pub open spec fn option_from_raw(o: OptionInfo, r: RawOption) -> bool {
    &&& o.name == r.option_name
    &&& o.group == r.group_name
    &&& o.default_value == r.default_value
    &&& o.supported_values@ == unwrap_values(r.supported_values@)
}

/// The position of the first option named `name`, or `None`.
pub open spec fn first_named(options: Seq<OptionInfo>, name: Seq<char>) -> Option<int> {
    if exists|i: int| 0 <= i < options.len() && options[i].name@ == name {
        Some(choose|i: int| 0 <= i < options.len() && options[i].name@ == name
            && forall|j: int| 0 <= j < i ==> options[j].name@ != name)
    } else {
        None
    }
}

/// An owned snapshot of a printer's options.
#[derive(Debug, Clone, Default)]
pub struct OptionsCollection {
    /// Every option discovered, in the order the backend reported them.
    pub options: Vec<OptionInfo>,
}

fn unwrap_supported(raw: &Vec<(String,)>) -> (r: Vec<String>)
    ensures
        r@ == unwrap_values(raw@),
{
    let mut out: Vec<String> = Vec::new();
    let mut i: usize = 0;
    while i < raw.len()
        invariant
            i <= raw@.len(),
            out@ == unwrap_values(raw@.subrange(0, i as int)),
        decreases raw@.len() - i,
    {
        out.push(raw[i].0.clone());
        i = i + 1;
        assert(unwrap_values(raw@.subrange(0, i as int)) =~= unwrap_values(raw@.subrange(0, i - 1)).push(raw@[i - 1].0));
    }
    assert(raw@.subrange(0, raw@.len() as int) =~= raw@);
    out
}

impl OptionInfo {
    /// Builds the option that a raw `GetAllOptions` record describes.
    pub fn from_raw(r: &RawOption) -> (o: OptionInfo)
        ensures
            option_from_raw(o, *r),
    {
        OptionInfo {
            name: r.option_name.clone(),
            default_value: r.default_value.clone(),
            group: r.group_name.clone(),
            supported_values: unwrap_supported(&r.supported_values),
        }
    }
}

/// The text of an optional string; a missing string reads as empty.
pub open spec fn text_or_empty(s: Option<String>) -> Seq<char> {
    match s {
        Some(t) => t@,
        None => Seq::empty(),
    }
}

/// The present items of `values`, in order.
pub open spec fn present<T>(values: Seq<Option<T>>) -> Seq<T>
    decreases values.len(),
{
    if values.len() == 0 {
        Seq::empty()
    } else {
        let rest = present(values.drop_last());
        match values.last() {
            Some(v) => rest.push(v),
            None => rest,
        }
    }
}

fn or_empty(s: Option<String>) -> (r: String)
    ensures
        r@ == text_or_empty(s),
        s matches Some(t) ==> r == t,
{
    match s {
        Some(t) => t,
        None => String::new(),
    }
}

impl OptionInfo {
    /// Builds an option from the fields of a C option record (`None` for a
    /// null string): a missing name, default or group reads as empty, and
    /// missing supported values are skipped.
    pub fn from_c_fields(
        name: Option<String>,
        default_value: Option<String>,
        group: Option<String>,
        supported: Vec<Option<String>>,
    ) -> (o: OptionInfo)
        ensures
            o.name@ == text_or_empty(name),
            o.default_value@ == text_or_empty(default_value),
            o.group@ == text_or_empty(group),
            o.supported_values@ == present(supported@),
    {
        let mut values: Vec<String> = Vec::new();
        let mut i: usize = 0;
        while i < supported.len()
            invariant
                i <= supported@.len(),
                values@ == present(supported@.subrange(0, i as int)),
            decreases supported@.len() - i,
        {
            proof {
                assert(supported@.subrange(0, i + 1).drop_last() =~= supported@.subrange(0, i as int));
            }
            match &supported[i] {
                Some(v) => values.push(v.clone()),
                None => {},
            }
            i = i + 1;
        }
        assert(supported@.subrange(0, supported@.len() as int) =~= supported@);
        OptionInfo {
            name: or_empty(name),
            default_value: or_empty(default_value),
            group: or_empty(group),
            supported_values: values,
        }
    }
}

impl OptionsCollection {
    /// Builds a collection from the entries of a C option table, skipping
    /// null entries (`None`), in order.
    pub fn from_c_table(entries: Vec<Option<OptionInfo>>) -> (r: Self)
        ensures
            r.options@ == present(entries@),
    {
        let mut options: Vec<OptionInfo> = Vec::new();
        let mut rest = entries;
        let ghost all = rest@;
        while rest.len() > 0
            invariant
                rest@.len() <= all.len(),
                rest@ == all.subrange(all.len() - rest@.len(), all.len() as int),
                options@ == present(all.subrange(0, all.len() - rest@.len())),
            decreases rest@.len(),
        {
            let ghost i = all.len() - rest@.len();
            proof {
                assert(all.subrange(0, i + 1).drop_last() =~= all.subrange(0, i));
                assert(all[i] == rest@[0]);
            }
            let e = rest.remove(0);
            match e {
                Some(o) => options.push(o),
                None => {},
            }
            proof {
                assert(rest@ =~= all.subrange(all.len() - rest@.len(), all.len() as int));
            }
        }
        assert(all.subrange(0, all.len() as int) =~= all);
        OptionsCollection { options }
    }

    /// The options of a C option record, from the record's address and its
    /// option table (`None` for a null table): a null record is an error,
    /// a record without a table has no options, and otherwise the
    /// non-null entries of the table are kept, in order.
    pub fn from_c_record(raw: usize, table: Option<Vec<Option<OptionInfo>>>) -> (r: Result<Self, CpdbError>)
        ensures
            raw == 0 ==> r matches Err(CpdbError::NullPointer),
            raw != 0 ==> (r matches Ok(c) && c.options@ == match table {
                None => Seq::<OptionInfo>::empty(),
                Some(entries) => present(entries@),
            }),
    {
        if raw == 0 {
            return Err(CpdbError::NullPointer);
        }
        match table {
            None => Ok(OptionsCollection { options: Vec::new() }),
            Some(entries) => Ok(OptionsCollection::from_c_table(entries)),
        }
    }

    /// The options of a printer from its C option table (`None` when
    /// cpdb-libs returned no table): no table is an error telling the
    /// caller to acquire the details first.
    pub fn from_c_options(table: Option<Vec<Option<OptionInfo>>>) -> (r: Result<Self, CpdbError>)
        ensures
            match table {
                None => r matches Err(CpdbError::BackendError(m))
                    && m@ == "cpdbGetAllOptions returned null \u{2014} call acquire_details() first"@,
                Some(entries) => r matches Ok(c) && c.options@ == present(entries@),
            },
    {
        match table {
            None => Err(CpdbError::BackendError(String::from_str(
                "cpdbGetAllOptions returned null \u{2014} call acquire_details() first",
            ))),
            Some(entries) => Ok(OptionsCollection::from_c_table(entries)),
        }
    }

    /// Builds a collection from the records of a `GetAllOptions` reply,
    /// one option per record, in the same order.
    pub fn from_dbus(raw: Vec<RawOption>) -> (r: Self)
        ensures
            r.options@.len() == raw@.len(),
            forall|i: int| 0 <= i < raw@.len() ==> option_from_raw(#[trigger] r.options@[i], raw@[i]),
    {
        let mut options: Vec<OptionInfo> = Vec::new();
        let mut i: usize = 0;
        while i < raw.len()
            invariant
                i <= raw@.len(),
                options@.len() == i,
                forall|j: int| 0 <= j < i ==> option_from_raw(#[trigger] options@[j], raw@[j]),
            decreases raw@.len() - i,
        {
            options.push(OptionInfo::from_raw(&raw[i]));
            i = i + 1;
        }
        OptionsCollection { options }
    }

    /// Returns the number of options in this collection.
    pub fn len(&self) -> (r: usize)
        ensures
            r == self.options@.len(),
    {
        self.options.len()
    }

    /// Returns `true` if this collection has no options.
    pub fn is_empty(&self) -> (r: bool)
        ensures
            r == (self.options@.len() == 0),
    {
        self.options.len() == 0
    }

    /// Finds the first option with the given name.
    pub fn get(&self, name: &str) -> (r: Option<&OptionInfo>)
        ensures
            match first_named(self.options@, name@) {
                Some(i) => r == Some(&self.options@[i]),
                None => r is None,
            },
    {
        let mut i: usize = 0;
        while i < self.options.len()
            invariant
                i <= self.options@.len(),
                forall|j: int| 0 <= j < i ==> self.options@[j].name@ != name@,
            decreases self.options@.len() - i,
        {
            if str_eq(self.options[i].name.as_str(), name) {
                proof {
                    let w = choose|w: int| 0 <= w < self.options@.len() && self.options@[w].name@ == name@
                        && forall|j: int| 0 <= j < w ==> self.options@[j].name@ != name@;
                    assert(w == i);
                }
                return Some(&self.options[i]);
            }
            i = i + 1;
        }
        None
    }

    /// Returns an iterator over all options, in order.
    pub fn iter(&self) -> (r: std::slice::Iter<'_, OptionInfo>)
        ensures
            vstd::std_specs::iter::IteratorSpec::remaining(&r) == self.options@.as_ref(),
    {
        self.options.iter()
    }
}

/// A collection built from a reply finds every option of the reply by its
/// name: the lookup gives the first record with that name, at or before
/// the record asked about; and a name that no record has is not found.
pub proof fn law_reply_options_are_found(collection: Seq<OptionInfo>, raw: Seq<RawOption>, k: int, name: Seq<char>)
    requires
        collection.len() == raw.len(),
        forall|i: int| 0 <= i < raw.len() ==> option_from_raw(#[trigger] collection[i], raw[i]),
    ensures
        0 <= k < raw.len() ==> (first_named(collection, raw[k].option_name@) matches Some(j)
            && 0 <= j <= k && option_from_raw(collection[j], raw[j])
            && raw[j].option_name@ == raw[k].option_name@),
        (forall|i: int| 0 <= i < raw.len() ==> raw[i].option_name@ != name) ==> first_named(collection, name) is None,
{
    if 0 <= k < raw.len() {
        assert(option_from_raw(collection[k], raw[k]));
        lemma_first_with(collection, |o: OptionInfo| o.name@ == raw[k].option_name@, k);
        let j = choose|j: int| 0 <= j < collection.len() && collection[j].name@ == raw[k].option_name@
            && forall|t: int| 0 <= t < j ==> collection[t].name@ != raw[k].option_name@;
        assert(option_from_raw(collection[j], raw[j]));
        if j > k {
            assert(collection[k].name@ != raw[k].option_name@);
        }
    }
    if forall|i: int| 0 <= i < raw.len() ==> raw[i].option_name@ != name {
        assert forall|i: int| 0 <= i < collection.len() implies collection[i].name@ != name by {
            assert(option_from_raw(collection[i], raw[i]));
        }
    }
}

/// Every option of a collection built from the records of a reply has the
/// record's name, group and default value, whatever its supported values,
/// and the record's supported values, in the same order.
pub proof fn law_reply_option_fields_are_kept(collection: Seq<OptionInfo>, raw: Seq<RawOption>)
    requires
        collection.len() == raw.len(),
        forall|i: int| 0 <= i < raw.len() ==> option_from_raw(#[trigger] collection[i], raw[i]),
    ensures
        forall|i: int| 0 <= i < raw.len() ==> {
            &&& (#[trigger] collection[i]).name == raw[i].option_name
            &&& collection[i].group == raw[i].group_name
            &&& collection[i].default_value == raw[i].default_value
            &&& collection[i].supported_values@.len() == raw[i].supported_values@.len()
        },
        forall|i: int, j: int| 0 <= i < raw.len() && 0 <= j < raw[i].supported_values@.len()
            ==> #[trigger] collection[i].supported_values@[j] == raw[i].supported_values@[j].0,
{
    assert forall|i: int, j: int| 0 <= i < raw.len() && 0 <= j < raw[i].supported_values@.len()
        implies #[trigger] collection[i].supported_values@[j] == raw[i].supported_values@[j].0 by {
        assert(option_from_raw(collection[i], raw[i]));
    }
}

} // verus!
