//! Floating labels: what each one shows, and how it is classed and styled.
use vstd::prelude::*;
use crate::record::RecordStore;
use crate::sampler::{VisualParams, sample_index, sample_visual_params};
use crate::text::{decimal_of, decimal_text, fixed_of, fixed_text, signed_fixed_of, signed_fixed_text};

verus! {

/// The class every label has; a second class adds the size tier to it.
pub open spec fn base_class() -> Seq<char> {
    "citiescrowl_text"@
}

/// The class attribute of a label of size tier `tier`:
/// `"citiescrowl_text citiescrowl_text{tier}"`.
pub open spec fn class_of(tier: nat) -> Seq<char> {
    base_class() + " "@ + base_class() + decimal_of(tier)
}

/// The animation's duration in ten-thousandths of a second:
/// `speed * (1 + tier / 20) * 10` seconds.
pub open spec fn duration_of(p: VisualParams) -> nat {
    (p.speed_permille * (20 + p.size_tier) * 5) as nat
}

/// The style attribute of a label:
/// `"top: {offset}vh; animation-duration: {duration}s;"`.
pub open spec fn style_of(p: VisualParams) -> Seq<char> {
    "top: "@ + signed_fixed_of(p.offset_hundredths as int, 2) + "vh; animation-duration: "@
        + fixed_of(duration_of(p), 4) + "s;"@
}

/// One floating label: the record it shows, how it looks, and the text of its
/// class and style attributes and of its content.
pub struct Label {
    pub record_index: usize,
    pub params: VisualParams,
    pub class_name: String,
    pub style: String,
    pub text: String,
}

/// Whether a label shows record `index` of the store with parameters `params`.
pub open spec fn label_is(l: Label, store: RecordStore, index: usize, params: VisualParams) -> bool {
    &&& index < store.len()
    &&& l.record_index == index
    &&& l.params == params
    &&& l.class_name@ == class_of(params.size_tier as nat)
    &&& l.style@ == style_of(params)
    &&& l.text@ == store.records()[index as int].city@
}

/// The class attribute of a label of size tier `tier`.
pub fn class_text(tier: u8) -> (r: String)
    ensures
        r@ == class_of(tier as nat),
{
    let base = "citiescrowl_text";
    let space = " ";
    let mut r = String::from_str(base);
    r.append(space);
    r.append(base);
    let digits = decimal_text(tier as u64);
    r.append(digits.as_str());
    r
}

/// The animation's duration in ten-thousandths of a second.
pub fn duration_ten_thousandths(p: VisualParams) -> (r: u64)
    requires
        p.wf(),
    ensures
        r == duration_of(p),
{
    let speed = p.speed_permille as u64;
    let factor = 20 + p.size_tier as u64;
    assert(speed * factor <= 1500 * 24) by (nonlinear_arith)
        requires
            speed <= 1500,
            factor <= 24,
    ;
    speed * factor * 5
}

/// The style attribute of a label.
pub fn style_text(p: VisualParams) -> (r: String)
    requires
        p.wf(),
    ensures
        r@ == style_of(p),
{
    let mut r = String::from_str("top: ");
    let top = signed_fixed_text(p.offset_hundredths as i64, 2);
    r.append(top.as_str());
    r.append("vh; animation-duration: ");
    let duration = fixed_text(duration_ten_thousandths(p), 4);
    r.append(duration.as_str());
    r.append("s;");
    r
}

/// The `for` attribute of every label: the control that a click on it toggles.
pub fn label_target() -> (r: &'static str)
    ensures
        r@ == "trigger"@,
{
    "trigger"
}

impl Label {
    /// The label that shows record `index` with parameters `params`.
    pub fn new(store: &RecordStore, index: usize, params: VisualParams) -> (r: Label)
        requires
            index < store.len(),
            params.wf(),
        ensures
            label_is(r, *store, index, params),
    {
        let text = store.get(index).city.clone();
        Label {
            record_index: index,
            params,
            class_name: class_text(params.size_tier),
            style: style_text(params),
            text,
        }
    }

    /// A label for a record drawn at random, with parameters drawn at random.
    pub fn sample(store: &RecordStore) -> (r: Label)
        requires
            store.len() > 0,
        ensures
            r.params.wf(),
            label_is(r, *store, r.record_index, r.params),
    {
        let index = sample_index(store.count());
        let params = sample_visual_params();
        Label::new(store, index, params)
    }
}

} // verus!
