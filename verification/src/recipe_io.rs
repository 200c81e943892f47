use crate::helpers::{is_alnum_whitespace_and_ex_chars, is_plain_text};
use crate::routes::error::ValidationError;
use std::collections::HashMap;
use vstd::prelude::*;

verus! {

broadcast use vstd::std_specs::hash::group_hash_axioms;

/// The unit in which an ingredient is measured.
#[derive(Clone, Copy, Debug, PartialEq, Eq, Structural)]
pub enum Measurement {
    Millilitre,
    Litre,
    Teaspoon,
    Tablespoon,
    FluidOz,
    Pint,
    Gallon,
    Milligram,
    Gram,
    Kilogram,
    Pound,
    Ounce,
    Celsius,
    Fahrenheit,
    Piece,
}

/// An ingredient with its unit and amount.
#[derive(Debug)]
pub struct RecipeMeasurements {
    pub ingredient: String,
    pub measurement: Measurement,
    pub amount: u32,
}

/// A `RecipeMeasurements` as plain values, as contracts speak of it.
pub struct RecipeMeasurementsView {
    pub ingredient: Seq<char>,
    pub measurement: Measurement,
    pub amount: u32,
}

impl View for RecipeMeasurements {
    type V = RecipeMeasurementsView;

    open spec fn view(&self) -> RecipeMeasurementsView {
        RecipeMeasurementsView {
            ingredient: self.ingredient@,
            measurement: self.measurement,
            amount: self.amount,
        }
    }
}

/// One step of a recipe: its place in the sequence and what to do.
#[derive(Debug)]
pub struct RecipeStep {
    pub order: u32,
    pub step_details: String,
    pub measurements: Option<RecipeMeasurements>,
}

/// A `RecipeStep` as plain values, as contracts speak of it.
pub struct RecipeStepView {
    pub order: u32,
    pub step_details: Seq<char>,
    pub measurements: Option<RecipeMeasurementsView>,
}

impl View for RecipeStep {
    type V = RecipeStepView;

    open spec fn view(&self) -> RecipeStepView {
        RecipeStepView {
            order: self.order,
            step_details: self.step_details@,
            measurements: match self.measurements {
                Some(m) => Some(m@),
                None => None,
            },
        }
    }
}

impl RecipeStep {
    /// Whether the text of the step is plain text.
    pub fn validate_step_details(&self) -> (b: bool)
        ensures
            b == is_plain_text(self.step_details@),
    {
        is_alnum_whitespace_and_ex_chars(self.step_details.as_str())
    }
}

/// The content of a recipe, as it is kept in its document.
#[derive(Debug)]
pub struct RecipeFileJson {
    pub title: String,
    pub description: String,
    pub ingredients: Vec<RecipeMeasurements>,
    pub steps: Vec<RecipeStep>,
}

/// A `RecipeFileJson` as plain values, as contracts speak of it.
pub struct RecipeFileJsonView {
    pub title: Seq<char>,
    pub description: Seq<char>,
    pub ingredients: Seq<RecipeMeasurementsView>,
    pub steps: Seq<RecipeStepView>,
}

impl View for RecipeFileJson {
    type V = RecipeFileJsonView;

    open spec fn view(&self) -> RecipeFileJsonView {
        RecipeFileJsonView {
            title: self.title@,
            description: self.description@,
            ingredients: self.ingredients@.map_values(|m: RecipeMeasurements| m@),
            steps: self.steps@.map_values(|s: RecipeStep| s@),
        }
    }
}

/// Whether some step before position `i` has the order `order`.
pub open spec fn order_seen(steps: Seq<RecipeStepView>, i: int, order: u32) -> bool {
    exists|j: int| 0 <= j < i && j < steps.len() && (#[trigger] steps[j]).order == order
}

/// What is wrong with the step at position `i`, given the steps before it.
pub open spec fn step_fault(steps: Seq<RecipeStepView>, i: int) -> Option<ValidationError> {
    if !is_plain_text(steps[i].step_details) {
        Some(ValidationError::InvalidCharacters)
    } else if order_seen(steps, i, steps[i].order) {
        Some(ValidationError::DuplicateStepOrder)
    } else {
        None
    }
}

/// The fault of the earliest faulty step among the first `upto` steps, if any.
pub open spec fn steps_fault(steps: Seq<RecipeStepView>, upto: int) -> Option<ValidationError>
    decreases upto,
{
    if upto <= 0 {
        None
    } else {
        match steps_fault(steps, upto - 1) {
            Some(e) => Some(e),
            None => step_fault(steps, upto - 1),
        }
    }
}

/// The fault for which a document is refused: title and description are looked at
/// first, then whether there is any step at all, then the steps in their sequence.
pub open spec fn document_fault(d: RecipeFileJsonView) -> Option<ValidationError> {
    if !is_plain_text(d.title) || !is_plain_text(d.description) {
        Some(ValidationError::InvalidCharacters)
    } else if d.steps.len() == 0 {
        Some(ValidationError::EmptySteps)
    } else {
        steps_fault(d.steps, d.steps.len() as int)
    }
}

/// No two steps share an order.
pub open spec fn orders_distinct(steps: Seq<RecipeStepView>) -> bool {
    forall|i: int, j: int|
        0 <= i < j < steps.len() ==> (#[trigger] steps[i]).order != (#[trigger] steps[j]).order
}

/// Every step's text is plain text.
pub open spec fn steps_plain(steps: Seq<RecipeStepView>) -> bool {
    forall|i: int| 0 <= i < steps.len() ==> is_plain_text((#[trigger] steps[i]).step_details)
}

/// A document that may be stored: plain title and description, at least one step,
/// plain step texts, and step orders that are pairwise distinct.
pub open spec fn document_is_valid(d: RecipeFileJsonView) -> bool {
    &&& is_plain_text(d.title)
    &&& is_plain_text(d.description)
    &&& d.steps.len() > 0
    &&& steps_plain(d.steps)
    &&& orders_distinct(d.steps)
}

/// The first `upto` steps are free of faults exactly when their texts are plain and
/// their orders pairwise distinct.
pub proof fn lemma_steps_fault_none(steps: Seq<RecipeStepView>, upto: int)
    requires
        0 <= upto <= steps.len(),
    ensures
        steps_fault(steps, upto) is None <==> steps_plain(steps.take(upto)) && orders_distinct(
            steps.take(upto),
        ),
    decreases upto,
{
    let t = steps.take(upto);
    if upto > 0 {
        lemma_steps_fault_none(steps, upto - 1);
        let p = steps.take(upto - 1);
        assert forall|i: int| 0 <= i < upto - 1 implies p[i] == t[i] by {}
        if steps_fault(steps, upto) is None {
            assert forall|i: int| 0 <= i < t.len() implies is_plain_text(
                (#[trigger] t[i]).step_details,
            ) by {}
            assert forall|i: int, j: int| 0 <= i < j < t.len() implies (#[trigger] t[i]).order != (
            #[trigger] t[j]).order by {}
        }
        if steps_plain(t) && orders_distinct(t) {
            assert forall|i: int| 0 <= i < p.len() implies is_plain_text(
                (#[trigger] p[i]).step_details,
            ) by {}
            assert forall|i: int, j: int| 0 <= i < j < p.len() implies (#[trigger] p[i]).order != (
            #[trigger] p[j]).order by {}
            if order_seen(steps, upto - 1, steps[upto - 1].order) {
                let j = choose|j: int|
                    0 <= j < upto - 1 && j < steps.len() && (#[trigger] steps[j]).order
                        == steps[upto - 1].order;
                assert(t[j].order != t[upto - 1].order);
            }
        }
    }
}

/// A document has no fault exactly when it is valid.
pub proof fn lemma_fault_none_iff_valid(d: RecipeFileJsonView)
    ensures
        document_fault(d) is None <==> document_is_valid(d),
{
    lemma_steps_fault_none(d.steps, d.steps.len() as int);
    assert(d.steps.take(d.steps.len() as int) == d.steps);
}

/// Once a fault has shown among the first steps, further steps do not change it.
pub proof fn lemma_steps_fault_stays(steps: Seq<RecipeStepView>, k: int, upto: int)
    requires
        0 <= k <= upto,
        steps_fault(steps, k) is Some,
    ensures
        steps_fault(steps, upto) == steps_fault(steps, k),
    decreases upto - k,
{
    if k < upto {
        lemma_steps_fault_stays(steps, k, upto - 1);
    }
}

/// A document with plain texts throughout and two steps that share an order is
/// refused for the duplicate.
pub proof fn lemma_duplicate_order_is_reported(d: RecipeFileJsonView, i: int, j: int)
    requires
        is_plain_text(d.title),
        is_plain_text(d.description),
        steps_plain(d.steps),
        0 <= i < j < d.steps.len(),
        d.steps[i].order == d.steps[j].order,
    ensures
        document_fault(d) == Some(ValidationError::DuplicateStepOrder),
{
    lemma_fault_none_iff_valid(d);
    lemma_steps_fault_is_duplicate(d.steps, d.steps.len() as int);
}

/// With plain texts throughout, the only fault that the steps can show is a
/// duplicate order.
pub proof fn lemma_steps_fault_is_duplicate(steps: Seq<RecipeStepView>, upto: int)
    requires
        0 <= upto <= steps.len(),
        steps_plain(steps),
    ensures
        steps_fault(steps, upto) is Some ==> steps_fault(steps, upto) == Some(
            ValidationError::DuplicateStepOrder,
        ),
    decreases upto,
{
    if upto > 0 {
        lemma_steps_fault_is_duplicate(steps, upto - 1);
    }
}

impl RecipeFileJson {
    /// Whether the title is plain text.
    pub fn validate_title(&self) -> (b: bool)
        ensures
            b == is_plain_text(self.title@),
    {
        is_alnum_whitespace_and_ex_chars(self.title.as_str())
    }

    /// Whether the description is plain text.
    pub fn validate_desc(&self) -> (b: bool)
        ensures
            b == is_plain_text(self.description@),
    {
        is_alnum_whitespace_and_ex_chars(self.description.as_str())
    }

    /// Accepts the document, or names the fault for which it is refused.
    pub fn is_valid_recipe(&self) -> (r: Result<(), ValidationError>)
        ensures
            r is Ok <==> document_is_valid(self@),
            r matches Err(e) ==> document_fault(self@) == Some(e),
    {
        proof {
            lemma_fault_none_iff_valid(self@);
        }
        if !self.validate_title() || !self.validate_desc() {
            return Err(ValidationError::InvalidCharacters);
        }
        if self.steps.len() == 0 {
            return Err(ValidationError::EmptySteps);
        }
        let ghost steps = self@.steps;
        let mut seen_orders: HashMap<u32, ()> = HashMap::new();
        let mut i: usize = 0;
        while i < self.steps.len()
            invariant
                0 <= i <= self.steps.len(),
                steps == self@.steps,
                steps.len() == self.steps.len(),
                is_plain_text(self.title@),
                is_plain_text(self.description@),
                steps_fault(steps, i as int) is None,
                forall|k: u32| #[trigger] seen_orders@.contains_key(k) <==> order_seen(steps, i as int, k),
            decreases self.steps.len() - i,
        {
            let step = &self.steps[i];
            if !step.validate_step_details() {
                proof {
                    lemma_steps_fault_stays(steps, i + 1, steps.len() as int);
                }
                return Err(ValidationError::InvalidCharacters);
            }
            if seen_orders.contains_key(&step.order) {
                proof {
                    lemma_steps_fault_stays(steps, i + 1, steps.len() as int);
                }
                return Err(ValidationError::DuplicateStepOrder);
            }
            seen_orders.insert(step.order, ());
            proof {
                assert forall|k: u32| #[trigger]
                    seen_orders@.contains_key(k) <==> order_seen(steps, i + 1, k) by {}
            }
            i += 1;
        }
        Ok(())
    }
}

} // verus!
