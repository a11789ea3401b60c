//! The current preset and its application to a newly imported photo's
//! sidecar document. Adjustment values are JSON text; the document's
//! `adjustments` object is a list of key/value entries.

use vstd::prelude::*;
use crate::entries::{
    entries_view, first_key_index, has_key, is_first_key, lemma_first_key_index, lemma_first_same_keys,
    lemma_has_key_first, lemma_lookup_upsert, lookup, upsert, upsert_entry,
};
use crate::strings::str_equals;
use vstd::string::*;

verus! {

/// Reserved key under which the applied preset is described.
pub const RESERVED_KEY: &'static str = "boothy";

pub open spec fn reserved_key() -> Seq<char> {
    "boothy"@
}

/// The preset selected in the UI, frozen at selection time.
#[derive(Clone, Debug)]
pub struct PresetSnapshot {
    pub preset_id: String,
    pub preset_name: Option<String>,
    /// Top-level adjustment entries: key and JSON value text.
    pub adjustments: Vec<(String, String)>,
    /// ISO-8601 UTC time of the selection.
    pub selected_at: String,
}

/// The preset's entries applied in order, the reserved key skipped.
pub open spec fn apply_entries(doc: Seq<(Seq<char>, Seq<char>)>, p: Seq<(Seq<char>, Seq<char>)>)
    -> Seq<(Seq<char>, Seq<char>)>
    decreases p.len(),
{
    if p.len() == 0 {
        doc
    } else {
        let d = apply_entries(doc, p.drop_last());
        let (k, v) = p.last();
        if k == reserved_key() { d } else { upsert(d, k, v) }
    }
}

/// The document's adjustments after applying a preset: the reserved entry
/// set to `applied`, then every other preset entry set in order.
pub open spec fn merged_adjustments(
    doc: Seq<(Seq<char>, Seq<char>)>,
    preset: Seq<(Seq<char>, Seq<char>)>,
    applied: Seq<char>,
) -> Seq<(Seq<char>, Seq<char>)> {
    apply_entries(upsert(doc, reserved_key(), applied), preset)
}

/// The value the preset's entries leave for `k` (never for the reserved key).
pub open spec fn last_value(p: Seq<(Seq<char>, Seq<char>)>, k: Seq<char>) -> Option<Seq<char>>
    decreases p.len(),
{
    if p.len() == 0 {
        None
    } else if p.last().0 == k && k != reserved_key() {
        Some(p.last().1)
    } else {
        last_value(p.drop_last(), k)
    }
}

proof fn lemma_apply_lookup(d: Seq<(Seq<char>, Seq<char>)>, p: Seq<(Seq<char>, Seq<char>)>, k: Seq<char>)
    ensures
        lookup(apply_entries(d, p), k) == (match last_value(p, k) {
            Some(v) => Some(v),
            None => lookup(d, k),
        }),
        has_key(apply_entries(d, p), k) == (last_value(p, k) is Some || has_key(d, k)),
    decreases p.len(),
{
    if p.len() > 0 {
        lemma_apply_lookup(d, p.drop_last(), k);
        let (k1, v1) = p.last();
        if k1 != reserved_key() {
            lemma_lookup_upsert(apply_entries(d, p.drop_last()), k1, v1, k);
        }
    }
}

proof fn lemma_apply_present(s: Seq<(Seq<char>, Seq<char>)>, p: Seq<(Seq<char>, Seq<char>)>)
    requires
        forall|k: Seq<char>| #[trigger] last_value(p, k) is Some ==> has_key(s, k),
    ensures
        apply_entries(s, p).len() == s.len(),
        forall|i: int| 0 <= i < s.len() ==> (#[trigger] apply_entries(s, p)[i]).0 == s[i].0,
        forall|i: int| 0 <= i < s.len() ==> (#[trigger] apply_entries(s, p)[i]).1 == (
            if is_first_key(s, s[i].0, i) && last_value(p, s[i].0) is Some {
                last_value(p, s[i].0)->0
            } else {
                s[i].1
            }),
    decreases p.len(),
{
    if p.len() > 0 {
        let q = p.drop_last();
        assert forall|k: Seq<char>| #[trigger] last_value(q, k) is Some implies has_key(s, k) by {
            if last_value(p, k) is None {
                assert(last_value(p, k) == last_value(q, k));
            }
        }
        lemma_apply_present(s, q);
        let d = apply_entries(s, q);
        let (k1, v1) = p.last();
        if k1 != reserved_key() {
            assert(last_value(p, k1) == Some(v1));
            assert(has_key(s, k1));
            lemma_first_same_keys(s, d, k1);
            lemma_has_key_first(s, k1);
            let j = first_key_index(s, k1);
            assert(apply_entries(s, p) == d.update(j, (k1, v1)));
            assert forall|i: int| 0 <= i < s.len() implies (#[trigger] apply_entries(s, p)[i]).1 == (
                if is_first_key(s, s[i].0, i) && last_value(p, s[i].0) is Some {
                    last_value(p, s[i].0)->0
                } else {
                    s[i].1
                }) by {
                if i != j {
                    if s[i].0 == k1 {
                        assert(!is_first_key(s, k1, i)) by {
                            if is_first_key(s, k1, i) {
                                lemma_first_key_index(s, k1, i);
                            }
                        }
                        assert(d[i].1 == s[i].1) by {
                            if is_first_key(s, s[i].0, i) {
                                lemma_first_key_index(s, k1, i);
                            }
                        }
                    } else {
                        assert(last_value(p, s[i].0) == last_value(q, s[i].0));
                    }
                }
            }
        }
    }
}

/// Applying the same preset twice, with the same reserved value, leaves the
/// adjustments exactly as applying it once.
pub proof fn lemma_merge_idempotent(
    doc: Seq<(Seq<char>, Seq<char>)>,
    preset: Seq<(Seq<char>, Seq<char>)>,
    applied: Seq<char>,
)
    ensures
        merged_adjustments(merged_adjustments(doc, preset, applied), preset, applied)
            == merged_adjustments(doc, preset, applied),
{
    let u = upsert(doc, reserved_key(), applied);
    let m = apply_entries(u, preset);
    // the reserved entry of `m` already holds `applied`
    lemma_lookup_upsert(doc, reserved_key(), applied, reserved_key());
    lemma_apply_lookup(u, preset, reserved_key());
    assert(last_value(preset, reserved_key()) is None) by {
        lemma_last_value_reserved(preset);
    }
    lemma_has_key_first(m, reserved_key());
    let j = first_key_index(m, reserved_key());
    assert(m[j] == (reserved_key(), applied));
    assert(upsert(m, reserved_key(), applied) =~= m);
    // every preset key is present in `m`, with its last preset value
    assert forall|k: Seq<char>| #[trigger] last_value(preset, k) is Some implies has_key(m, k) by {
        lemma_apply_lookup(u, preset, k);
    }
    lemma_apply_present(m, preset);
    assert forall|i: int| 0 <= i < m.len() implies apply_entries(m, preset)[i] == m[i] by {
        let k = m[i].0;
        if is_first_key(m, k, i) && last_value(preset, k) is Some {
            lemma_first_key_index(m, k, i);
            lemma_apply_lookup(u, preset, k);
        }
    }
    assert(apply_entries(m, preset) =~= m);
}

proof fn lemma_last_value_reserved(p: Seq<(Seq<char>, Seq<char>)>)
    ensures
        last_value(p, reserved_key()) is None,
    decreases p.len(),
{
    if p.len() > 0 {
        lemma_last_value_reserved(p.drop_last());
    }
}

/// Merges preset entries into a document's adjustments (see
/// `merged_adjustments`): existing keys take the preset's value, keys the
/// preset lacks stay, and the reserved key only ever holds `applied`.
pub fn merge_preset_adjustments(
    adjustments: &mut Vec<(String, String)>,
    preset: &Vec<(String, String)>,
    applied: String,
)
    ensures
        entries_view(final(adjustments)@) == merged_adjustments(
            entries_view(old(adjustments)@),
            entries_view(preset@),
            applied@,
        ),
{
    upsert_entry(adjustments, RESERVED_KEY, applied);
    let ghost start = entries_view(adjustments@);
    let mut i: usize = 0;
    while i < preset.len()
        invariant
            i <= preset@.len(),
            entries_view(adjustments@) == apply_entries(start, entries_view(preset@.subrange(0, i as int))),
        decreases preset.len() - i,
    {
        proof {
            assert(entries_view(preset@.subrange(0, i + 1)).drop_last()
                =~= entries_view(preset@.subrange(0, i as int)));
        }
        if !str_equals(preset[i].0.as_str(), RESERVED_KEY) {
            upsert_entry(adjustments, preset[i].0.as_str(), preset[i].1.clone());
        }
        i = i + 1;
    }
    assert(preset@.subrange(0, i as int) =~= preset@);
}

/// Holds the current preset.
#[derive(Debug)]
pub struct PresetManager {
    pub current_preset: Option<PresetSnapshot>,
}

impl PresetManager {
    pub fn new() -> (r: PresetManager)
        ensures
            r.current_preset is None,
    {
        PresetManager { current_preset: None }
    }

    /// Replaces the current preset; files imported earlier are unaffected.
    pub fn set_current_preset(
        &mut self,
        preset_id: String,
        preset_name: Option<String>,
        adjustments: Vec<(String, String)>,
        selected_at: String,
    )
        ensures
            final(self).current_preset == Some(
                PresetSnapshot { preset_id, preset_name, adjustments, selected_at },
            ),
    {
        self.current_preset = Some(PresetSnapshot { preset_id, preset_name, adjustments, selected_at });
    }

    pub fn get_current_preset(&self) -> (r: Option<&PresetSnapshot>)
        ensures
            r is Some <==> self.current_preset is Some,
            r is Some ==> *r->0 == self.current_preset->0,
    {
        match &self.current_preset {
            Some(p) => Some(p),
            None => None,
        }
    }

    pub fn clear_current_preset(&mut self)
        ensures
            final(self).current_preset is None,
    {
        self.current_preset = None;
    }

    /// Applies the current preset to a document's adjustments, with
    /// `applied` as the reserved entry's value (the preset's id, name and the
    /// time of application, as JSON). Without a current preset nothing
    /// changes; tells whether a preset was applied.
    pub fn apply_preset_on_import(&self, adjustments: &mut Vec<(String, String)>, applied: String) -> (r: bool)
        ensures
            r == self.current_preset is Some,
            r ==> entries_view(final(adjustments)@) == merged_adjustments(
                entries_view(old(adjustments)@),
                entries_view(self.current_preset->0.adjustments@),
                applied@,
            ),
            !r ==> final(adjustments)@ == old(adjustments)@,
    {
        match &self.current_preset {
            Some(p) => {
                merge_preset_adjustments(adjustments, &p.adjustments, applied);
                true
            },
            None => false,
        }
    }
}

} // verus!
