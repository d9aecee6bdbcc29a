//! The two conversions that the generator synthesizes, as functions of the
//! resolved configuration: from a string to a variant, and from a variant
//! to its canonical string.

use vstd::prelude::*;
use vstd::string::StringExecFns;
use crate::auto_str::{
    explicit_literals,
    ConversionConfig,
    ConversionConfigView,
    Mapping,
    MappingView,
    VariantConversionView,
};
use crate::text::{same_text, texts};

verus! {

/// Why a string does not convert to a variant.
#[derive(Debug, Clone, PartialEq, Eq)]
pub enum ConversionError {
    /// No variant accepts the input.
    InvalidValue { input: String },
    /// More than one fallback candidate accepts the input; the types that
    /// the accepting candidates wrap are listed in declaration order.
    AmbiguousConversion { candidate_type_names: Vec<String> },
    /// A literal of a wrapping variant matched and the wrapped type's own
    /// conversion failed: its error is the result.
    WrappedFailure { variant: usize },
}

/// A conversion error, as plain text.
pub enum ConversionErrorView {
    InvalidValue { input: Seq<char> },
    AmbiguousConversion { candidate_type_names: Seq<Seq<char>> },
    WrappedFailure { variant: usize },
}

impl View for ConversionError {
    type V = ConversionErrorView;

    open spec fn view(&self) -> ConversionErrorView {
        match *self {
            ConversionError::InvalidValue { input } => ConversionErrorView::InvalidValue {
                input: input@,
            },
            ConversionError::AmbiguousConversion {
                candidate_type_names,
            } => ConversionErrorView::AmbiguousConversion {
                candidate_type_names: texts(candidate_type_names@),
            },
            ConversionError::WrappedFailure { variant } => ConversionErrorView::WrappedFailure {
                variant,
            },
        }
    }
}

/// Whether `input` is one of the explicit literals of a mapping.
pub open spec fn lists(mapping: MappingView, input: Seq<char>) -> bool {
    match mapping {
        MappingView::Literals { literals } => literals.contains(input),
        MappingView::WrappedLiterals { literals, .. } => literals.contains(input),
        _ => false,
    }
}

/// The first variant from `from` on that lists `input` among its explicit
/// literals.
pub open spec fn first_listing(
    variants: Seq<VariantConversionView>,
    input: Seq<char>,
    from: int,
) -> Option<int>
    decreases variants.len() - from,
{
    if from < 0 || from >= variants.len() {
        None
    } else if lists(variants[from].mapping, input) {
        Some(from)
    } else {
        first_listing(variants, input, from + 1)
    }
}

/// Whether `input` is the rule-made string of a mapping without literals.
pub open spec fn names(mapping: MappingView, input: Seq<char>) -> bool {
    mapping matches MappingView::RuleName { text } && text == input
}

/// The first variant from `from` on whose rule-made string is `input`.
pub open spec fn first_naming(
    variants: Seq<VariantConversionView>,
    input: Seq<char>,
    from: int,
) -> Option<int>
    decreases variants.len() - from,
{
    if from < 0 || from >= variants.len() {
        None
    } else if names(variants[from].mapping, input) {
        Some(from)
    } else {
        first_naming(variants, input, from + 1)
    }
}

/// Whether the type that variant number `index` wraps converts the input:
/// the answer of the wrapped type's own conversion, which the caller
/// supplies. A missing answer counts as a refusal.
pub open spec fn accepted(accepts: Seq<bool>, index: int) -> bool {
    0 <= index < accepts.len() && accepts[index]
}

/// Whether variant number `index` is a fallback candidate whose wrapped
/// type converts the input.
pub open spec fn succeeds(
    variants: Seq<VariantConversionView>,
    accepts: Seq<bool>,
    index: int,
) -> bool {
    variants[index].mapping is Fallback && accepted(accepts, index)
}

/// The fallback candidates among the first `n` variants whose wrapped type
/// converts the input, in declaration order.
pub open spec fn candidates(
    variants: Seq<VariantConversionView>,
    accepts: Seq<bool>,
    n: nat,
) -> Seq<int>
    decreases n,
{
    if n == 0 {
        Seq::empty()
    } else if succeeds(variants, accepts, n - 1) {
        candidates(variants, accepts, (n - 1) as nat).push(n - 1)
    } else {
        candidates(variants, accepts, (n - 1) as nat)
    }
}

/// The types that those candidates wrap, in the same order.
pub open spec fn candidate_types(
    variants: Seq<VariantConversionView>,
    accepts: Seq<bool>,
    n: nat,
) -> Seq<Seq<char>>
    decreases n,
{
    if n == 0 {
        Seq::empty()
    } else if succeeds(variants, accepts, n - 1) {
        candidate_types(variants, accepts, (n - 1) as nat).push(
            variants[n - 1].mapping->Fallback_wrapped,
        )
    } else {
        candidate_types(variants, accepts, (n - 1) as nat)
    }
}

/// The variant that `input` converts to, by position. Explicit literals are
/// checked first, then rule-made names, each in declaration order; then
/// the fallback candidates are tried, and exactly one of them must accept.
pub open spec fn conversion(
    config: ConversionConfigView,
    input: Seq<char>,
    accepts: Seq<bool>,
) -> Result<int, ConversionErrorView> {
    match first_listing(config.variants, input, 0) {
        Some(index) => if config.variants[index].mapping is WrappedLiterals && !accepted(
            accepts,
            index,
        ) {
            Err(ConversionErrorView::WrappedFailure { variant: index as usize })
        } else {
            Ok(index)
        },
        None => match first_naming(config.variants, input, 0) {
            Some(index) => Ok(index),
            None => {
                let found = candidates(config.variants, accepts, config.variants.len());
                if found.len() == 0 {
                    Err(ConversionErrorView::InvalidValue { input })
                } else if found.len() == 1 {
                    Ok(found[0])
                } else {
                    Err(
                        ConversionErrorView::AmbiguousConversion {
                            candidate_type_names: candidate_types(
                                config.variants,
                                accepts,
                                config.variants.len(),
                            ),
                        },
                    )
                }
            },
        },
    }
}

/// The canonical string of a value of variant number `variant`: the first
/// literal, or the rule-made name, or for a wrapping variant the canonical
/// string of the wrapped value, which the caller supplies.
pub open spec fn canonical(
    config: ConversionConfigView,
    variant: int,
    wrapped_text: Seq<char>,
) -> Option<Seq<char>> {
    if 0 <= variant < config.variants.len() {
        Some(
            match config.variants[variant].mapping {
                MappingView::Literals { literals } => if literals.len() > 0 {
                    literals[0]
                } else {
                    config.variants[variant].name
                },
                MappingView::RuleName { text } => text,
                MappingView::WrappedLiterals { .. } => wrapped_text,
                MappingView::Fallback { .. } => wrapped_text,
            },
        )
    } else {
        None
    }
}

fn holds_text(list: &Vec<String>, input: &str) -> (r: bool)
    ensures
        r == texts(list@).contains(input@),
{
    let mut i: usize = 0;
    while i < list.len()
        invariant
            i <= list.len(),
            forall|j: int| 0 <= j < i ==> texts(list@)[j] != input@,
        decreases list.len() - i,
    {
        if same_text(list[i].as_str(), input) {
            assert(texts(list@)[i as int] == input@);
            return true;
        }
        i += 1;
    }
    false
}

fn mapping_lists(mapping: &Mapping, input: &str) -> (r: bool)
    ensures
        r == lists(mapping@, input@),
{
    match mapping {
        Mapping::Literals { literals } => holds_text(literals, input),
        Mapping::WrappedLiterals { literals, .. } => holds_text(literals, input),
        _ => false,
    }
}

fn mapping_names(mapping: &Mapping, input: &str) -> (r: bool)
    ensures
        r == names(mapping@, input@),
{
    match mapping {
        Mapping::RuleName { text } => same_text(text.as_str(), input),
        _ => false,
    }
}

fn answer(accepts: &Vec<bool>, index: usize) -> (r: bool)
    ensures
        r == accepted(accepts@, index as int),
{
    index < accepts.len() && accepts[index]
}

impl ConversionConfig {
    fn find_listing(&self, input: &str) -> (r: Option<usize>)
        ensures
            match first_listing(self@.variants, input@, 0) {
                Some(index) => r matches Some(found) && found as int == index && 0 <= index
                    < self.variants@.len(),
                None => r is None,
            },
    {
        let mut i: usize = 0;
        while i < self.variants.len()
            invariant
                i <= self.variants.len(),
                first_listing(self@.variants, input@, 0) == first_listing(
                    self@.variants,
                    input@,
                    i as int,
                ),
            decreases self.variants.len() - i,
        {
            if mapping_lists(&self.variants[i].mapping, input) {
                return Some(i);
            }
            i += 1;
        }
        None
    }

    fn find_naming(&self, input: &str) -> (r: Option<usize>)
        ensures
            match first_naming(self@.variants, input@, 0) {
                Some(index) => r matches Some(found) && found as int == index && 0 <= index
                    < self.variants@.len(),
                None => r is None,
            },
    {
        let mut i: usize = 0;
        while i < self.variants.len()
            invariant
                i <= self.variants.len(),
                first_naming(self@.variants, input@, 0) == first_naming(
                    self@.variants,
                    input@,
                    i as int,
                ),
            decreases self.variants.len() - i,
        {
            if mapping_names(&self.variants[i].mapping, input) {
                return Some(i);
            }
            i += 1;
        }
        None
    }

    /// Converts `input` to a variant, given for each variant whether the
    /// type it wraps converts `input` (the entry of a variant that wraps
    /// nothing is not read). The result is the position of the variant.
    pub fn from_string(&self, input: &str, accepts: &Vec<bool>) -> (r: Result<
        usize,
        ConversionError,
    >)
        ensures
            match conversion(self@, input@, accepts@) {
                Ok(index) => r matches Ok(found) && found == index,
                Err(error) => r matches Err(found) && found@ == error,
            },
    {
        if let Some(index) = self.find_listing(input) {
            let wrapping = match &self.variants[index].mapping {
                Mapping::WrappedLiterals { .. } => true,
                _ => false,
            };
            if wrapping && !answer(accepts, index) {
                return Err(ConversionError::WrappedFailure { variant: index });
            }
            return Ok(index);
        }
        if let Some(index) = self.find_naming(input) {
            return Ok(index);
        }
        let mut found: Vec<String> = Vec::new();
        let mut last: usize = 0;
        let mut i: usize = 0;
        while i < self.variants.len()
            invariant
                i <= self.variants.len(),
                texts(found@) == candidate_types(self@.variants, accepts@, i as nat),
                found@.len() == candidates(self@.variants, accepts@, i as nat).len(),
                found@.len() > 0 ==> candidates(self@.variants, accepts@, i as nat).last()
                    == last as int,
            decreases self.variants.len() - i,
        {
            match &self.variants[i].mapping {
                Mapping::Fallback { wrapped } => {
                    if answer(accepts, i) {
                        found.push(wrapped.clone());
                        last = i;
                    }
                },
                _ => {},
            }
            i += 1;
        }
        if found.len() == 0 {
            Err(ConversionError::InvalidValue { input: String::from_str(input) })
        } else if found.len() == 1 {
            Ok(last)
        } else {
            Err(ConversionError::AmbiguousConversion { candidate_type_names: found })
        }
    }

    /// The canonical string of a value of variant number `variant`, given
    /// the canonical string of the value it wraps (not read for a variant
    /// that wraps nothing). None where there is no such variant.
    pub fn to_canonical_string(&self, variant: usize, wrapped_text: &str) -> (r: Option<String>)
        ensures
            match canonical(self@, variant as int, wrapped_text@) {
                Some(text) => r matches Some(found) && found@ == text,
                None => r is None,
            },
    {
        if variant >= self.variants.len() {
            return None;
        }
        let conversion = &self.variants[variant];
        Some(
            match &conversion.mapping {
                Mapping::Literals { literals } => if literals.len() > 0 {
                    literals[0].clone()
                } else {
                    conversion.name.clone()
                },
                Mapping::RuleName { text } => text.clone(),
                Mapping::WrappedLiterals { .. } => String::from_str(wrapped_text),
                Mapping::Fallback { .. } => String::from_str(wrapped_text),
            },
        )
    }
}

/// The first variant that lists `input` is `variant` where `variant` lists
/// it and no variant from `from` up to it does.
pub proof fn lemma_first_listing(
    variants: Seq<VariantConversionView>,
    input: Seq<char>,
    from: int,
    variant: int,
)
    requires
        0 <= from <= variant < variants.len(),
        lists(variants[variant].mapping, input),
        forall|j: int| from <= j < variant ==> !lists(#[trigger] variants[j].mapping, input),
    ensures
        first_listing(variants, input, from) == Some(variant),
    decreases variant - from,
{
    if from < variant {
        lemma_first_listing(variants, input, from + 1, variant);
    }
}

/// No variant from `from` on lists `input` where none lists it at all.
pub proof fn lemma_no_listing(variants: Seq<VariantConversionView>, input: Seq<char>, from: int)
    requires
        0 <= from,
        forall|j: int| 0 <= j < variants.len() ==> !lists(#[trigger] variants[j].mapping, input),
    ensures
        first_listing(variants, input, from) is None,
    decreases variants.len() - from,
{
    if from < variants.len() {
        lemma_no_listing(variants, input, from + 1);
    }
}

/// The first variant whose rule-made string is `input` is `variant` where
/// that is its string and no variant from `from` up to it has the same.
pub proof fn lemma_first_naming(
    variants: Seq<VariantConversionView>,
    input: Seq<char>,
    from: int,
    variant: int,
)
    requires
        0 <= from <= variant < variants.len(),
        names(variants[variant].mapping, input),
        forall|j: int| from <= j < variant ==> !names(#[trigger] variants[j].mapping, input),
    ensures
        first_naming(variants, input, from) == Some(variant),
    decreases variant - from,
{
    if from < variant {
        lemma_first_naming(variants, input, from + 1, variant);
    }
}

/// No variant from `from` on has the rule-made string `input` where none
/// has it at all.
pub proof fn lemma_no_naming(variants: Seq<VariantConversionView>, input: Seq<char>, from: int)
    requires
        0 <= from,
        forall|j: int| 0 <= j < variants.len() ==> !names(#[trigger] variants[j].mapping, input),
    ensures
        first_naming(variants, input, from) is None,
    decreases variants.len() - from,
{
    if from < variants.len() {
        lemma_no_naming(variants, input, from + 1);
    }
}

/// The candidates among the first `n` variants are as many as their types,
/// and they stay in front when more variants are looked at.
pub proof fn lemma_candidates_grow(
    variants: Seq<VariantConversionView>,
    accepts: Seq<bool>,
    n: nat,
    m: nat,
)
    requires
        n <= m,
    ensures
        candidates(variants, accepts, n).len() == candidate_types(variants, accepts, n).len(),
        candidates(variants, accepts, m).len() == candidate_types(variants, accepts, m).len(),
        candidates(variants, accepts, n).len() <= candidates(variants, accepts, m).len(),
        forall|k: int|
            0 <= k < candidates(variants, accepts, n).len() ==> #[trigger] candidates(
                variants,
                accepts,
                m,
            )[k] == candidates(variants, accepts, n)[k],
        forall|k: int|
            0 <= k < candidates(variants, accepts, n).len() ==> #[trigger] candidate_types(
                variants,
                accepts,
                m,
            )[k] == candidate_types(variants, accepts, n)[k],
    decreases m,
{
    if n < m {
        lemma_candidates_grow(variants, accepts, n, (m - 1) as nat);
    } else {
        if n > 0 {
            lemma_candidates_grow(variants, accepts, (n - 1) as nat, (n - 1) as nat);
        }
    }
}

/// Every candidate among the first `n` variants is one of them and
/// succeeds.
pub proof fn lemma_candidates_succeed(
    variants: Seq<VariantConversionView>,
    accepts: Seq<bool>,
    n: nat,
)
    ensures
        forall|k: int|
            0 <= k < candidates(variants, accepts, n).len() ==> 0 <= #[trigger] candidates(
                variants,
                accepts,
                n,
            )[k] < n,
        forall|k: int|
            0 <= k < candidates(variants, accepts, n).len() ==> succeeds(
                variants,
                accepts,
                #[trigger] candidates(variants, accepts, n)[k],
            ),
    decreases n,
{
    if n > 0 {
        lemma_candidates_succeed(variants, accepts, (n - 1) as nat);
        let before = candidates(variants, accepts, (n - 1) as nat);
        let now = candidates(variants, accepts, n);
        assert forall|k: int| 0 <= k < now.len() implies 0 <= #[trigger] now[k] < n && succeeds(
            variants,
            accepts,
            now[k],
        ) by {
            if k < before.len() {
                assert(now[k] == before[k]);
            }
        }
    }
}

/// Candidates are listed in declaration order, so no variant is listed
/// twice.
pub proof fn lemma_candidates_distinct(
    variants: Seq<VariantConversionView>,
    accepts: Seq<bool>,
    n: nat,
    a: int,
    b: int,
)
    requires
        0 <= a < b < candidates(variants, accepts, n).len(),
    ensures
        candidates(variants, accepts, n)[a] < candidates(variants, accepts, n)[b],
    decreases n,
{
    if n > 0 {
        let before = candidates(variants, accepts, (n - 1) as nat);
        lemma_candidates_succeed(variants, accepts, (n - 1) as nat);
        if b < before.len() {
            lemma_candidates_distinct(variants, accepts, (n - 1) as nat, a, b);
        }
    }
}

/// Every literal of a variant with explicit literals converts to that
/// variant, provided that no variant declared before it lists the same
/// literal and, for a wrapping variant, that the wrapped type converts the
/// literal too. A unit variant with explicit literals converts to the
/// first of them.
pub proof fn law_explicit_literals(
    config: ConversionConfigView,
    variant: int,
    k: int,
    accepts: Seq<bool>,
    wrapped_text: Seq<char>,
)
    requires
        0 <= variant < config.variants.len(),
        config.variants[variant].mapping is Literals || config.variants[variant].mapping
            is WrappedLiterals,
        0 <= k < explicit_literals(config.variants[variant].mapping).len(),
        forall|j: int|
            0 <= j < variant ==> !lists(
                #[trigger] config.variants[j].mapping,
                explicit_literals(config.variants[variant].mapping)[k],
            ),
        config.variants[variant].mapping is WrappedLiterals ==> accepted(accepts, variant),
    ensures
        conversion(config, explicit_literals(config.variants[variant].mapping)[k], accepts) == Ok::<
            int,
            ConversionErrorView,
        >(variant),
        config.variants[variant].mapping is Literals ==> canonical(config, variant, wrapped_text)
            == Some(explicit_literals(config.variants[variant].mapping)[0]),
{
    let literals = explicit_literals(config.variants[variant].mapping);
    lemma_first_listing(config.variants, literals[k], 0, variant);
}

/// Round trip for a unit variant: its canonical string converts back to
/// it, provided that the string is not ambiguous, that is, no variant
/// declared before it answers to the same string and, for a rule-made
/// name, no variant lists that string as a literal.
pub proof fn law_round_trip(
    config: ConversionConfigView,
    variant: int,
    accepts: Seq<bool>,
    wrapped_text: Seq<char>,
)
    requires
        0 <= variant < config.variants.len(),
        config.variants[variant].mapping is Literals || config.variants[variant].mapping
            is RuleName,
        config.variants[variant].mapping is Literals ==> explicit_literals(
            config.variants[variant].mapping,
        ).len() > 0,
        forall|j: int|
            0 <= j < variant ==> !lists(
                #[trigger] config.variants[j].mapping,
                canonical(config, variant, wrapped_text)->0,
            ),
        config.variants[variant].mapping is RuleName ==> {
            &&& forall|j: int|
                0 <= j < config.variants.len() ==> !lists(
                    #[trigger] config.variants[j].mapping,
                    canonical(config, variant, wrapped_text)->0,
                )
            &&& forall|j: int|
                0 <= j < variant ==> !names(
                    #[trigger] config.variants[j].mapping,
                    canonical(config, variant, wrapped_text)->0,
                )
        },
    ensures
        canonical(config, variant, wrapped_text) is Some,
        conversion(config, canonical(config, variant, wrapped_text)->0, accepts) == Ok::<
            int,
            ConversionErrorView,
        >(variant),
{
    let text = canonical(config, variant, wrapped_text)->0;
    if config.variants[variant].mapping is Literals {
        law_explicit_literals(config, variant, 0, accepts, wrapped_text);
    } else {
        lemma_no_listing(config.variants, text, 0);
        lemma_first_naming(config.variants, text, 0, variant);
    }
}

/// Round trip for a fallback variant: the canonical string of the wrapped
/// value converts back to the variant, provided that no variant answers to
/// that string by a literal or a rule-made name and that the wrapped type
/// is the only candidate that converts it.
pub proof fn law_round_trip_fallback(
    config: ConversionConfigView,
    variant: int,
    accepts: Seq<bool>,
    wrapped_text: Seq<char>,
)
    requires
        0 <= variant < config.variants.len(),
        config.variants[variant].mapping is Fallback,
        accepted(accepts, variant),
        forall|j: int|
            0 <= j < config.variants.len() ==> !lists(
                #[trigger] config.variants[j].mapping,
                wrapped_text,
            ) && !names(config.variants[j].mapping, wrapped_text),
        forall|j: int|
            0 <= j < config.variants.len() && j != variant ==> !succeeds(
                config.variants,
                accepts,
                j,
            ),
    ensures
        canonical(config, variant, wrapped_text) == Some(wrapped_text),
        conversion(config, wrapped_text, accepts) == Ok::<int, ConversionErrorView>(variant),
{
    let n = config.variants.len();
    lemma_no_listing(config.variants, wrapped_text, 0);
    lemma_no_naming(config.variants, wrapped_text, 0);
    let found = candidates(config.variants, accepts, n);
    lemma_candidates_succeed(config.variants, accepts, n);
    lemma_candidates_grow(config.variants, accepts, (variant + 1) as nat, n);
    if found.len() >= 2 {
        lemma_candidates_distinct(config.variants, accepts, n, 0, 1);
    }
}

/// Ambiguity: where two fallback variants wrap types that both convert the
/// input, and no variant answers to the input by a literal or a rule-made
/// name, the conversion fails with the ambiguity error, and the error
/// names the types of both.
pub proof fn law_ambiguity(
    config: ConversionConfigView,
    first: int,
    second: int,
    input: Seq<char>,
    accepts: Seq<bool>,
)
    requires
        0 <= first < second < config.variants.len(),
        succeeds(config.variants, accepts, first),
        succeeds(config.variants, accepts, second),
        forall|j: int|
            0 <= j < config.variants.len() ==> !lists(#[trigger] config.variants[j].mapping, input)
                && !names(config.variants[j].mapping, input),
    ensures
        conversion(config, input, accepts) matches Err(
            ConversionErrorView::AmbiguousConversion { candidate_type_names },
        ) && candidate_type_names.contains(config.variants[first].mapping->Fallback_wrapped)
            && candidate_type_names.contains(config.variants[second].mapping->Fallback_wrapped),
{
    let n = config.variants.len();
    let variants = config.variants;
    lemma_no_listing(variants, input, 0);
    lemma_no_naming(variants, input, 0);
    lemma_candidates_grow(variants, accepts, first as nat, (first + 1) as nat);
    lemma_candidates_grow(variants, accepts, (first + 1) as nat, second as nat);
    lemma_candidates_grow(variants, accepts, second as nat, (second + 1) as nat);
    lemma_candidates_grow(variants, accepts, (first + 1) as nat, n);
    lemma_candidates_grow(variants, accepts, (second + 1) as nat, n);
    let at_first = candidates(variants, accepts, first as nat).len() as int;
    let at_second = candidates(variants, accepts, second as nat).len() as int;
    let types = candidate_types(variants, accepts, n);
    assert(types[at_first] == variants[first].mapping->Fallback_wrapped);
    assert(types[at_second] == variants[second].mapping->Fallback_wrapped);
}

} // verus!
