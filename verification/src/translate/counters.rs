//! Counters kept under names, and the names chosen for names.

use vstd::prelude::*;
use crate::text::{decimal_digits, decimal_text, join3, text, text_eq};
use crate::translate::{NameCount, NameMapping};
use crate::translate::expressions::counted;
use crate::translate::model::{
    name_count_models, name_mapping_models, NameCountView, NameMappingView, TranslatedDefinitionView,
};
use crate::translate::scope::{counted_once_more, first_match, first_where};

verus! {

/// The test "is the counter of `name`".
pub open spec fn counts(name: Seq<char>) -> spec_fn(NameCountView) -> bool {
    |c: NameCountView| c.name == name
}

/// The test "is the mapping of `name`".
pub open spec fn maps(name: Seq<char>) -> spec_fn(NameMappingView) -> bool {
    |m: NameMappingView| m.old_name == name
}

/// Where the counter of `name` stands; 0 if there is none.
pub open spec fn count_of(s: Seq<NameCountView>, name: Seq<char>) -> usize {
    match first_match(s, counts(name)) {
        Some(c) => c.count,
        None => 0,
    }
}

/// The name that is given out for `base` when names are numbered: `base`
/// itself the first time, and from then on `base`, an underscore and the
/// number of times that `base` was asked for, this time included.
pub open spec fn numbered(s: Seq<NameCountView>, base: Seq<char>) -> Seq<char> {
    let count = counted_once_more(count_of(s, base));
    if count > 1 {
        base + "_"@ + decimal_digits(count as nat)
    } else {
        base
    }
}

/// The name chosen for `name`, if one is.
pub open spec fn mapped(s: Seq<NameMappingView>, name: Seq<char>) -> Option<Seq<char>> {
    match first_match(s, maps(name)) {
        Some(m) => Some(m.new_name),
        None => None,
    }
}

/// Whether no name has two counters.
pub open spec fn counted_once(s: Seq<NameCountView>) -> bool {
    forall|i: int, j: int| 0 <= i < j < s.len() ==> (#[trigger] s[i]).name != (#[trigger] s[j]).name
}

/// Whether no name has two mappings.
pub open spec fn mapped_once(s: Seq<NameMappingView>) -> bool {
    forall|i: int, j: int| 0 <= i < j < s.len() ==> (#[trigger] s[i]).old_name != (#[trigger] s[j]).old_name
}

impl TranslatedDefinitionView {
    /// What holds of the tables that a definition keeps by name: in none
    /// of them a name has two entries.
    pub open spec fn names_kept_once(self) -> bool {
        &&& counted_once(self.function_name_counts)
        &&& counted_once(self.function_call_counts)
        &&& counted_once(self.storage_fields_name_counts)
        &&& mapped_once(self.function_names)
        &&& mapped_once(self.storage_fields_names)
    }
}

proof fn lemma_counted_names(s: Seq<NameCountView>, name: Seq<char>)
    ensures
        s.len() <= counted(s, name).len() <= s.len() + 1,
        forall|j: int| 0 <= j < s.len() ==> (#[trigger] counted(s, name)[j]).name == s[j].name,
        counted(s, name).len() == s.len() + 1 ==> {
            &&& counted(s, name).last().name == name
            &&& forall|j: int| 0 <= j < s.len() ==> (#[trigger] s[j]).name != name
        },
    decreases s.len(),
{
    if s.len() > 0 && s.first().name != name {
        let t = s.drop_first();
        lemma_counted_names(t, name);
        let r = counted(s, name);
        assert(r =~= seq![s.first()] + counted(t, name));
        assert forall|j: int| 0 <= j < s.len() implies (#[trigger] r[j]).name == s[j].name by {
            if j > 0 {
                assert(r[j] == counted(t, name)[j - 1]);
                assert(t[j - 1] == s[j]);
            }
        }
        if r.len() == s.len() + 1 {
            assert(r.last() == counted(t, name).last());
            assert forall|j: int| 0 <= j < s.len() implies (#[trigger] s[j]).name != name by {
                if j > 0 {
                    assert(t[j - 1] == s[j]);
                }
            }
        }
    }
}

/// Counting keeps the counters in order: where no name had two counters,
/// none has two after a name was counted once more.
pub proof fn lemma_counting_keeps_names_once(s: Seq<NameCountView>, name: Seq<char>)
    requires
        counted_once(s),
    ensures
        counted_once(counted(s, name)),
{
    lemma_counted_names(s, name);
    let r = counted(s, name);
    assert forall|i: int, j: int| 0 <= i < j < r.len() implies (#[trigger] r[i]).name != (#[trigger] r[j]).name by {
        if j < s.len() {
            assert(s[i].name != s[j].name);
        } else {
            assert(r[j] == r.last());
            assert(s[i].name != name);
        }
    }
}

/// A mapping for a name that has none keeps the mappings in order.
pub proof fn lemma_mapping_keeps_names_once(s: Seq<NameMappingView>, m: NameMappingView)
    requires
        mapped_once(s),
        mapped(s, m.old_name) is None,
    ensures
        mapped_once(s.push(m)),
{
    crate::translate::scope::lemma_first_match_is_first(s, maps(m.old_name));
    let r = s.push(m);
    assert forall|i: int, j: int| 0 <= i < j < r.len() implies (#[trigger] r[i]).old_name != (#[trigger] r[j]).old_name by {
        if j < s.len() {
            assert(s[i].old_name != s[j].old_name);
        } else {
            assert(!maps(m.old_name)(s[i]));
        }
    }
}

proof fn lemma_counted_at(s: Seq<NameCountView>, name: Seq<char>, i: int)
    requires
        0 <= i <= s.len(),
        forall|j: int| 0 <= j < i ==> !counts(name)(#[trigger] s[j]),
        i < s.len() ==> counts(name)(s[i]),
    ensures
        counted(s, name) =~= if i < s.len() {
            s.update(i, NameCountView { count: counted_once_more(s[i].count), ..s[i] })
        } else {
            s.push(NameCountView { name, count: 1 })
        },
        count_of(counted(s, name), name) == counted_once_more(count_of(s, name)),
    decreases s.len(),
{
    if s.len() == 0 {
        let one = seq![NameCountView { name, count: 1 }];
        assert(counts(name)(one.first()));
    } else if i == 0 {
        let bumped = NameCountView { count: counted_once_more(s[0].count), ..s[0] };
        assert((seq![bumped] + s.drop_first()).first() == bumped);
    } else {
        assert(!counts(name)(s[0]));
        let t = s.drop_first();
        assert forall|j: int| 0 <= j < i - 1 implies !counts(name)(#[trigger] t[j]) by {
            assert(t[j] == s[j + 1]);
        }
        if i < s.len() {
            assert(t[i - 1] == s[i]);
        }
        lemma_counted_at(t, name, i - 1);
        let rest = counted(t, name);
        assert((seq![s.first()] + rest).first() == s.first());
        assert((seq![s.first()] + rest).drop_first() =~= rest);
    }
}

/// Counts `name` once more and tells where its counter stands then.
pub fn count_name(counters: &mut Vec<NameCount>, name: &str) -> (r: usize)
    ensures
        name_count_models(final(counters)@) == counted(name_count_models(old(counters)@), name@),
        r == counted_once_more(count_of(name_count_models(old(counters)@), name@)),
        counted_once(name_count_models(old(counters)@)) ==> counted_once(name_count_models(final(counters)@)),
{
    let ghost before = name_count_models(counters@);
    proof {
        if counted_once(before) {
            lemma_counting_keeps_names_once(before, name@);
        }
    }
    let found = first_where::<NameCount, NameCountView, _>(
        counters,
        (|c: &NameCount| -> (b: bool)
            ensures
                b == (c@.name == name@),
            {
                text_eq(c.name.as_str(), name)
            }),
        Ghost(name_count_models(counters@)),
        Ghost(counts(name@)),
    );
    match found {
        Some(i) => {
            proof {
                lemma_counted_at(before, name@, i as int);
            }
            let count = counters[i].count;
            let next = if count < usize::MAX { count + 1 } else { count };
            counters[i].count = next;
            assert(name_count_models(counters@) =~= counted(before, name@));
            next
        },
        None => {
            proof {
                lemma_counted_at(before, name@, before.len() as int);
            }
            counters.push(NameCount { name: text(name), count: 1 });
            assert(name_count_models(counters@) =~= counted(before, name@));
            1
        },
    }
}

/// Gives out a name for `base` that was not given out before, and counts
/// that `base` was asked for.
pub fn number_name(counters: &mut Vec<NameCount>, base: String) -> (r: String)
    ensures
        r@ == numbered(name_count_models(old(counters)@), base@),
        name_count_models(final(counters)@) == counted(name_count_models(old(counters)@), base@),
        counted_once(name_count_models(old(counters)@)) ==> counted_once(name_count_models(final(counters)@)),
{
    let count = count_name(counters, base.as_str());
    if count > 1 {
        let digits = decimal_text(count as u64);
        join3(base.as_str(), "_", digits.as_str())
    } else {
        base
    }
}

/// The name chosen for `name`, if one is.
pub fn mapped_name(mappings: &Vec<NameMapping>, name: &str) -> (r: Option<String>)
    ensures
        match r {
            Some(n) => mapped(name_mapping_models(mappings@), name@) == Some(n@),
            None => mapped(name_mapping_models(mappings@), name@) is None,
        },
{
    let found = first_where::<NameMapping, NameMappingView, _>(
        mappings,
        (|m: &NameMapping| -> (b: bool)
            ensures
                b == (m@.old_name == name@),
            {
                text_eq(m.old_name.as_str(), name)
            }),
        Ghost(name_mapping_models(mappings@)),
        Ghost(maps(name@)),
    );
    match found {
        Some(i) => Some(mappings[i].new_name.clone()),
        None => None,
    }
}

} // verus!
