//! A translation run: the definitions translated so far.

use vstd::prelude::*;
use vstd::string::StringSliceAdditionalSpecFns;
use crate::errors::{Error, ErrorView};
use crate::solidity;
use crate::solidity::SourceUnitPart;
use crate::text::text_eq;
use crate::translate::TranslatedDefinition;
use crate::translate::function_rules::translated_contract;
use crate::translate::functions::translate_contract_definition;
use crate::translate::model::{translated_definition_models, TranslatedDefinitionView};
use crate::translate::scope::{first_match, first_where};

verus! {

/// The definitions translated so far, in the order of their translation.
/// A definition can refer to the interfaces and enums of those before it.
#[derive(Debug)]
pub struct Project {
    pub translated_definitions: Vec<TranslatedDefinition>,
}

/// What a [`Project`] holds, as a mathematical value.
pub ghost struct ProjectView {
    pub translated_definitions: Seq<TranslatedDefinitionView>,
}

impl View for Project {
    type V = ProjectView;

    open spec fn view(&self) -> ProjectView {
        ProjectView { translated_definitions: translated_definition_models(self.translated_definitions@) }
    }
}

/// The test "is the definition named `name` and has an abi".
pub open spec fn has_abi_named(name: Seq<char>) -> spec_fn(TranslatedDefinitionView) -> bool {
    |d: TranslatedDefinitionView| d.name == name && d.abi is Some
}

/// The test "is the definition named `name`".
pub open spec fn is_definition_named(name: Seq<char>) -> spec_fn(TranslatedDefinitionView) -> bool {
    |d: TranslatedDefinitionView| d.name == name
}

impl ProjectView {
    /// The first definition with the given name that exposes a callable
    /// interface.
    pub open spec fn definition_with_abi(self, name: Seq<char>) -> Option<TranslatedDefinitionView> {
        first_match(self.translated_definitions, has_abi_named(name))
    }

    /// The first definition with the given name.
    pub open spec fn definition_named(self, name: Seq<char>) -> Option<TranslatedDefinitionView> {
        first_match(self.translated_definitions, is_definition_named(name))
    }
}

impl ProjectView {
    /// This project with one more definition.
    pub open spec fn with_definition(self, d: TranslatedDefinitionView) -> ProjectView {
        ProjectView { translated_definitions: self.translated_definitions.push(d) }
    }
}

/// The project after the parts of a source unit are translated, in order:
/// each contract is translated and added to the project; nothing else is
/// translated.
pub open spec fn with_parts(project: ProjectView, parts: Seq<SourceUnitPart>) -> Result<ProjectView, ErrorView>
    decreases parts.len(),
{
    if parts.len() == 0 {
        Ok(project)
    } else {
        match with_parts(project, parts.drop_last()) {
            Err(error) => Err(error),
            Ok(p) => match parts.last() {
                SourceUnitPart::ContractDefinition(c) => match translated_contract(p, c) {
                    Err(error) => Err(error),
                    Ok(d) => Ok(p.with_definition(d)),
                },
                SourceUnitPart::Other => Ok(p),
            },
        }
    }
}

/// The project after the source units are translated, in order.
pub open spec fn with_units(project: ProjectView, units: Seq<solidity::SourceUnit>) -> Result<ProjectView, ErrorView>
    decreases units.len(),
{
    if units.len() == 0 {
        Ok(project)
    } else {
        match with_units(project, units.drop_last()) {
            Err(error) => Err(error),
            Ok(p) => with_parts(p, units.last().parts@),
        }
    }
}

/// The project as far as the translation of the parts got: with the
/// definitions of the contracts before the first that could not be
/// translated.
pub open spec fn with_parts_so_far(project: ProjectView, parts: Seq<SourceUnitPart>) -> ProjectView
    decreases parts.len(),
{
    if parts.len() == 0 {
        project
    } else {
        match with_parts(project, parts.drop_last()) {
            Err(_) => with_parts_so_far(project, parts.drop_last()),
            Ok(p) => match with_parts(project, parts) {
                Ok(q) => q,
                Err(_) => p,
            },
        }
    }
}

/// The project as far as the translation of the source units got.
pub open spec fn with_units_so_far(project: ProjectView, units: Seq<solidity::SourceUnit>) -> ProjectView
    decreases units.len(),
{
    if units.len() == 0 {
        project
    } else {
        match with_units(project, units.drop_last()) {
            Err(_) => with_units_so_far(project, units.drop_last()),
            Ok(p) => with_parts_so_far(p, units.last().parts@),
        }
    }
}

proof fn lemma_parts_so_far(project: ProjectView, parts: Seq<SourceUnitPart>, n: int)
    requires
        0 <= n <= parts.len(),
        with_parts(project, parts.subrange(0, n)) is Err,
    ensures
        with_parts_so_far(project, parts) == with_parts_so_far(project, parts.subrange(0, n)),
    decreases parts.len() - n,
{
    if n == parts.len() {
        assert(parts.subrange(0, n) =~= parts);
    } else {
        let s = parts.subrange(0, n + 1);
        assert(s.drop_last() =~= parts.subrange(0, n));
        lemma_parts_fail(project, parts, n + 1);
        lemma_parts_so_far(project, parts, n + 1);
    }
}

proof fn lemma_units_so_far(project: ProjectView, units: Seq<solidity::SourceUnit>, n: int)
    requires
        0 <= n <= units.len(),
        with_units(project, units.subrange(0, n)) is Err,
    ensures
        with_units_so_far(project, units) == with_units_so_far(project, units.subrange(0, n)),
    decreases units.len() - n,
{
    if n == units.len() {
        assert(units.subrange(0, n) =~= units);
    } else {
        let s = units.subrange(0, n + 1);
        assert(s.drop_last() =~= units.subrange(0, n));
        lemma_units_fail(project, units, n + 1);
        lemma_units_so_far(project, units, n + 1);
    }
}

proof fn lemma_parts_done(project: ProjectView, parts: Seq<SourceUnitPart>)
    requires
        with_parts(project, parts) is Ok,
    ensures
        with_parts_so_far(project, parts) == with_parts(project, parts)->Ok_0,
{
}

proof fn lemma_units_done(project: ProjectView, units: Seq<solidity::SourceUnit>)
    requires
        with_units(project, units) is Ok,
    ensures
        with_units_so_far(project, units) == with_units(project, units)->Ok_0,
{
    if units.len() > 0 {
        lemma_parts_done(with_units(project, units.drop_last())->Ok_0, units.last().parts@);
    }
}

proof fn lemma_parts_fail(project: ProjectView, parts: Seq<SourceUnitPart>, n: int)
    requires
        0 <= n <= parts.len(),
        with_parts(project, parts.subrange(0, n)) is Err,
    ensures
        with_parts(project, parts) == with_parts(project, parts.subrange(0, n)),
    decreases parts.len() - n,
{
    if n == parts.len() {
        assert(parts.subrange(0, n) =~= parts);
    } else {
        let s = parts.subrange(0, n + 1);
        assert(s.drop_last() =~= parts.subrange(0, n));
        lemma_parts_fail(project, parts, n + 1);
    }
}

proof fn lemma_units_fail(project: ProjectView, units: Seq<solidity::SourceUnit>, n: int)
    requires
        0 <= n <= units.len(),
        with_units(project, units.subrange(0, n)) is Err,
    ensures
        with_units(project, units) == with_units(project, units.subrange(0, n)),
    decreases units.len() - n,
{
    if n == units.len() {
        assert(units.subrange(0, n) =~= units);
    } else {
        let s = units.subrange(0, n + 1);
        assert(s.drop_last() =~= units.subrange(0, n));
        lemma_units_fail(project, units, n + 1);
    }
}

/// Where the line starts that the bytes end in: after the last line
/// break, or at the start.
pub open spec fn line_start(bytes: Seq<u8>) -> usize
    decreases bytes.len(),
{
    if bytes.len() == 0 {
        0
    } else if bytes.last() == 10 {
        bytes.len() as usize
    } else {
        line_start(bytes.drop_last())
    }
}

/// The ranges of the lines of a text that end in a line break: for each,
/// the offsets of its first byte and of its line break.
pub open spec fn line_ranges(bytes: Seq<u8>) -> Seq<(usize, usize)>
    decreases bytes.len(),
{
    if bytes.len() == 0 {
        Seq::empty()
    } else if bytes.last() == 10 {
        line_ranges(bytes.drop_last()).push((line_start(bytes.drop_last()), (bytes.len() - 1) as usize))
    } else {
        line_ranges(bytes.drop_last())
    }
}

/// Loads the line ranges of a source text, by which an offset in the text
/// is found again as a line.
pub fn load_line_ranges(source: &str) -> (r: Vec<(usize, usize)>)
    ensures
        r@ == line_ranges(source.spec_bytes()),
{
    let bytes = source.as_bytes();
    let mut ranges: Vec<(usize, usize)> = Vec::new();
    let mut start: usize = 0;
    let mut i: usize = 0;
    assert(bytes@.subrange(0, 0) =~= Seq::empty());
    while i < bytes.len()
        invariant
            i <= bytes.len(),
            bytes@ == source.spec_bytes(),
            start == line_start(bytes@.subrange(0, i as int)),
            ranges@ == line_ranges(bytes@.subrange(0, i as int)),
        decreases bytes.len() - i,
    {
        proof {
            let s = bytes@.subrange(0, i + 1);
            assert(s.drop_last() =~= bytes@.subrange(0, i as int));
            assert(s.last() == bytes@[i as int]);
        }
        if bytes[i] == 10 {
            ranges.push((start, i));
            start = i + 1;
        }
        i += 1;
    }
    assert(bytes@.subrange(0, i as int) =~= bytes@);
    ranges
}

/// The value of an optional reference to a definition.
pub open spec fn definition_view(d: Option<&TranslatedDefinition>) -> Option<TranslatedDefinitionView> {
    match d {
        Some(d) => Some(d@),
        None => None,
    }
}

impl Project {
    /// A project without definitions.
    pub fn new() -> (r: Project)
        ensures
            r@.translated_definitions == Seq::<TranslatedDefinitionView>::empty(),
    {
        let r = Project { translated_definitions: Vec::new() };
        assert(r@.translated_definitions =~= Seq::empty());
        r
    }

    fn translate_part(&mut self, part: &SourceUnitPart) -> (r: Result<(), Error>)
        ensures
            match r {
                Ok(()) => (match *part {
                    SourceUnitPart::ContractDefinition(c) => match translated_contract(old(self)@, c) {
                        Err(error) => Err(error),
                        Ok(d) => Ok(old(self)@.with_definition(d)),
                    },
                    SourceUnitPart::Other => Ok(old(self)@),
                }) == Ok::<ProjectView, ErrorView>(final(self)@),
                Err(error) => (match *part {
                    SourceUnitPart::ContractDefinition(c) => match translated_contract(old(self)@, c) {
                        Err(error) => Err(error),
                        Ok(d) => Ok(old(self)@.with_definition(d)),
                    },
                    SourceUnitPart::Other => Ok(old(self)@),
                }) == Err::<ProjectView, ErrorView>(error@) && final(self)@ == old(self)@,
            },
    {
        match part {
            SourceUnitPart::ContractDefinition(c) => match translate_contract_definition(self, c) {
                Err(error) => {
                    return Err(error);
                },
                Ok(d) => {
                    self.translated_definitions.push(d);
                    assert(final(self)@.translated_definitions =~= old(self)@.translated_definitions.push(d@));
                    return Ok(());
                },
            },
            SourceUnitPart::Other => {
                return Ok(());
            },
        }
    }

    fn translate_unit(&mut self, unit: &solidity::SourceUnit) -> (r: Result<(), Error>)
        ensures
            match r {
                Ok(()) => with_parts(old(self)@, unit.parts@) == Ok::<ProjectView, ErrorView>(final(self)@),
                Err(error) => with_parts(old(self)@, unit.parts@) == Err::<ProjectView, ErrorView>(error@),
            },
            final(self)@ == with_parts_so_far(old(self)@, unit.parts@),
    {
        let ghost start = old(self)@;
        let mut i: usize = 0;
        assert(unit.parts@.subrange(0, 0) =~= Seq::empty());
        while i < unit.parts.len()
            invariant
                i <= unit.parts.len(),
                start == old(self)@,
                with_parts(start, unit.parts@.subrange(0, i as int)) == Ok::<ProjectView, ErrorView>(self@),
            decreases unit.parts.len() - i,
        {
            proof {
                let s = unit.parts@.subrange(0, i + 1);
                assert(s.drop_last() =~= unit.parts@.subrange(0, i as int));
                assert(s.last() == unit.parts@[i as int]);
            }
            match self.translate_part(&unit.parts[i]) {
                Err(error) => {
                    proof {
                        lemma_parts_fail(start, unit.parts@, i + 1);
                        lemma_parts_so_far(start, unit.parts@, i + 1);
                    }
                    return Err(error);
                },
                Ok(()) => {},
            }
            i += 1;
        }
        assert(unit.parts@.subrange(0, i as int) =~= unit.parts@);
        proof {
            lemma_parts_done(start, unit.parts@);
        }
        Ok(())
    }

    /// Translates the contracts of the source units, in order, and adds
    /// their definitions to the project. The first error ends the
    /// translation; the definitions translated before it stay.
    pub fn translate(&mut self, source_units: &Vec<solidity::SourceUnit>) -> (r: Result<(), Error>)
        ensures
            match r {
                Ok(()) => with_units(old(self)@, source_units@) == Ok::<ProjectView, ErrorView>(final(self)@),
                Err(error) => with_units(old(self)@, source_units@) == Err::<ProjectView, ErrorView>(error@),
            },
            final(self)@ == with_units_so_far(old(self)@, source_units@),
    {
        let ghost start = old(self)@;
        let mut i: usize = 0;
        assert(source_units@.subrange(0, 0) =~= Seq::empty());
        while i < source_units.len()
            invariant
                i <= source_units.len(),
                start == old(self)@,
                with_units(start, source_units@.subrange(0, i as int)) == Ok::<ProjectView, ErrorView>(self@),
            decreases source_units.len() - i,
        {
            proof {
                let s = source_units@.subrange(0, i + 1);
                assert(s.drop_last() =~= source_units@.subrange(0, i as int));
                assert(s.last() == source_units@[i as int]);
            }
            match self.translate_unit(&source_units[i]) {
                Err(error) => {
                    proof {
                        lemma_units_fail(start, source_units@, i + 1);
                        lemma_units_so_far(start, source_units@, i + 1);
                    }
                    return Err(error);
                },
                Ok(()) => {},
            }
            i += 1;
        }
        assert(source_units@.subrange(0, i as int) =~= source_units@);
        proof {
            lemma_units_done(start, source_units@);
        }
        Ok(())
    }

    /// Looks up a previously translated contract by name, if it exposes a
    /// callable interface.
    pub fn find_definition_with_abi(&self, name: &str) -> (r: Option<&TranslatedDefinition>)
        ensures
            definition_view(r) == self@.definition_with_abi(name@),
            r is Some ==> r->0.abi is Some,
    {
        let found = first_where::<TranslatedDefinition, TranslatedDefinitionView, _>(
            &self.translated_definitions,
            (|d: &TranslatedDefinition| -> (b: bool)
                ensures
                    b == (d@.name == name@ && d@.abi is Some),
                {
                    text_eq(d.name.as_str(), name) && d.abi.is_some()
                }),
            Ghost(translated_definition_models(self.translated_definitions@)),
            Ghost(has_abi_named(name@)),
        );
        match found {
            Some(i) => Some(&self.translated_definitions[i]),
            None => None,
        }
    }

    /// Looks up a previously translated definition by name.
    pub fn find_definition(&self, name: &str) -> (r: Option<&TranslatedDefinition>)
        ensures
            definition_view(r) == self@.definition_named(name@),
    {
        let found = first_where::<TranslatedDefinition, TranslatedDefinitionView, _>(
            &self.translated_definitions,
            (|d: &TranslatedDefinition| -> (b: bool)
                ensures
                    b == (d@.name == name@),
                {
                    text_eq(d.name.as_str(), name)
                }),
            Ghost(translated_definition_models(self.translated_definitions@)),
            Ghost(is_definition_named(name@)),
        );
        match found {
            Some(i) => Some(&self.translated_definitions[i]),
            None => None,
        }
    }
}

} // verus!
