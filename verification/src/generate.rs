//! Generation: from a record's schema to the layout of its builder.

use vstd::prelude::*;
use crate::classify::{classify, classify_spec, FieldStrategy, StrategyView};
use crate::schema::{
    field_views, FieldView, GenerationError, RecordSource, ShapeView, SourceShape, SourceView,
};

verus! {

/// The layout of a builder: one entry per field of the record, in the
/// record's declaration order. The entry at a position describes the storage
/// slot at that position, its initial value and its setter; constructing a
/// record reads the slots in the same order.
#[derive(Debug, PartialEq, Eq)]
pub struct BuilderArtifact {
    /// The name of the record type.
    pub record_name: String,
    /// The name of the builder type.
    pub builder_name: String,
    /// The strategy of each field, in declaration order.
    pub fields: Vec<FieldStrategy>,
}

/// The mathematical model of a `BuilderArtifact`.
pub struct ArtifactView {
    pub record_name: Seq<char>,
    pub builder_name: Seq<char>,
    pub fields: Seq<StrategyView>,
}

/// The views of a list of strategies, in the same order.
pub open spec fn strategy_views(fields: Seq<FieldStrategy>) -> Seq<StrategyView> {
    Seq::new(fields.len(), |i: int| fields[i]@)
}

impl View for BuilderArtifact {
    type V = ArtifactView;

    open spec fn view(&self) -> ArtifactView {
        ArtifactView {
            record_name: self.record_name@,
            builder_name: self.builder_name@,
            fields: strategy_views(self.fields@),
        }
    }
}

/// What is put behind the record's name to name its builder.
pub open spec fn builder_suffix() -> Seq<char> {
    "Builder"@
}

/// Whether every field of the list can be given a strategy.
pub open spec fn all_classify(fields: Seq<FieldView>) -> bool {
    forall|i: int| 0 <= i < fields.len() ==> (#[trigger] classify_spec(fields[i])).is_ok()
}

/// The builder layout of a generation target. A target that is not a flat
/// record has none; a record has one exactly when each of its fields can be
/// classified, and then the entries are the fields' strategies in order.
pub open spec fn derive_spec(s: SourceView) -> Result<ArtifactView, GenerationError> {
    match s.shape {
        ShapeView::Record(fields) => if all_classify(fields) {
            Ok(
                ArtifactView {
                    record_name: s.name,
                    builder_name: s.name + builder_suffix(),
                    fields: Seq::new(fields.len(), |i: int| classify_spec(fields[i])->Ok_0),
                },
            )
        } else {
            Err(GenerationError::MisappliedAccumulator)
        },
        _ => Err(GenerationError::UnsupportedShape),
    }
}

/// The view of a generation's outcome.
pub open spec fn derived_view(r: Result<BuilderArtifact, GenerationError>) -> Result<
    ArtifactView,
    GenerationError,
> {
    match r {
        Ok(a) => Ok(a@),
        Err(e) => Err(e),
    }
}

/// Generates the builder layout for `input`, all of it or nothing: one
/// field that cannot be classified fails the whole record.
pub fn derive(input: &RecordSource) -> (res: Result<BuilderArtifact, GenerationError>)
    ensures
        derived_view(res) == derive_spec(input@),
{
    match &input.shape {
        SourceShape::Record(fields) => {
            let ghost views = field_views(fields@);
            let mut strategies: Vec<FieldStrategy> = Vec::new();
            let mut i: usize = 0;
            while i < fields.len()
                invariant
                    i <= fields.len(),
                    views == field_views(fields@),
                    input@.shape == ShapeView::Record(views),
                    strategies.len() == i,
                    forall|j: int| 0 <= j < i ==> (#[trigger] classify_spec(views[j])).is_ok(),
                    forall|j: int|
                        0 <= j < i ==> (#[trigger] strategies[j])@ == classify_spec(views[j])->Ok_0,
                decreases fields.len() - i,
            {
                let outcome = classify(&fields[i]);
                assert(views[i as int] == fields[i as int]@);
                match outcome {
                    Ok(strategy) => {
                        strategies.push(strategy);
                    },
                    Err(e) => {
                        assert(classify_spec(views[i as int]) == Err::<StrategyView, _>(e));
                        assert(!all_classify(views));
                        return Err(e);
                    },
                }
                i += 1;
            }
            let record_name = input.name.clone();
            let builder_name = input.name.clone().concat("Builder");
            let artifact = BuilderArtifact { record_name, builder_name, fields: strategies };
            proof {
                assert(all_classify(views));
                assert(artifact@.fields =~= derive_spec(input@)->Ok_0.fields);
            }
            Ok(artifact)
        },
        _ => Err(GenerationError::UnsupportedShape),
    }
}

} // verus!
