//! What is done to a block once all its statements are translated.
//!
//! A variable is declared before its uses are seen, so that whether it has
//! to be mutable is known only at the end of its block: the declarations of
//! the variables that were mutated are then marked. Blocks nested in the
//! block that declare nothing that the block's scope can see are dissolved
//! into it, and so is a block that ends it.

use vstd::prelude::*;
use crate::sway::{Block, Expression, Let, LetIdentifier, LetPattern, Statement};
use crate::sway::clone::clone_statements;
use crate::sway::model::{
    BlockView, ExpressionView, let_identifier_models, LetIdentifierView, LetPatternView, LetView,
    statement_models, StatementView,
};
use crate::errors::{Error, ErrorView};
use crate::text::text_eq;
use crate::translate::{TranslatedVariable, TranslationScope};
use crate::translate::model::{translated_variable_models, TranslatedVariableView, TranslationScopeView};
use crate::translate::scope::{first_match, first_where, lemma_first_match_is_first};

verus! {

/// The identifier, mutable if it is named `name`.
pub open spec fn identifier_marked(id: LetIdentifierView, name: Seq<char>) -> LetIdentifierView {
    if id.name == name {
        LetIdentifierView { is_mutable: true, ..id }
    } else {
        id
    }
}

/// The pattern with the identifiers named `name` made mutable.
pub open spec fn pattern_marked(pattern: LetPatternView, name: Seq<char>) -> LetPatternView {
    match pattern {
        LetPatternView::Identifier(id) => LetPatternView::Identifier(identifier_marked(id, name)),
        LetPatternView::Tuple(ids) => LetPatternView::Tuple(
            Seq::new(ids.len(), |i: int| identifier_marked(ids[i], name)),
        ),
    }
}

/// The statements with the declaration of one variable marked: if the
/// variable was mutated and the statement at its index is a `let`, the
/// names in it that are the variable's become mutable.
pub open spec fn marked_for(statements: Seq<StatementView>, v: TranslatedVariableView) -> Seq<StatementView> {
    match v.statement_index {
        Some(i) => if v.mutation_count > 0 && i < statements.len() {
            match statements[i as int] {
                StatementView::Let(l) => statements.update(
                    i as int,
                    StatementView::Let(LetView { pattern: pattern_marked(l.pattern, v.new_name), ..l }),
                ),
                _ => statements,
            }
        } else {
            statements
        },
        None => statements,
    }
}

/// The statements with the declarations of all the variables marked, one
/// variable after the other.
pub open spec fn marked_mutable(
    statements: Seq<StatementView>,
    variables: Seq<TranslatedVariableView>,
) -> Seq<StatementView>
    decreases variables.len(),
{
    if variables.len() == 0 {
        statements
    } else {
        marked_for(marked_mutable(statements, variables.drop_last()), variables.last())
    }
}

/// Whether the identifier has a name that the scope resolves.
pub open spec fn is_visible(scope: TranslationScopeView, id: LetIdentifierView) -> bool {
    scope.variable_from_new_name(id.name) is Some
}

/// Whether one of the identifiers has a name that the scope resolves.
pub open spec fn any_is_visible(scope: TranslationScopeView, ids: Seq<LetIdentifierView>) -> bool {
    exists|i: int| 0 <= i < ids.len() && is_visible(scope, #[trigger] ids[i])
}

/// Whether one of the names that the statement declares is visible in the
/// scope.
pub open spec fn declares_visible(scope: TranslationScopeView, statement: StatementView) -> bool {
    match statement {
        StatementView::Let(l) => match l.pattern {
            LetPatternView::Identifier(id) => is_visible(scope, id),
            LetPatternView::Tuple(ids) => any_is_visible(scope, ids),
        },
        StatementView::Expression(_) => false,
    }
}

/// Whether one of the statements declares a name that is visible in the
/// scope.
pub open spec fn shadows(scope: TranslationScopeView, statements: Seq<StatementView>) -> bool {
    exists|i: int| 0 <= i < statements.len() && declares_visible(scope, #[trigger] statements[i])
}

/// What a statement is replaced by when nested blocks are dissolved: the
/// statements of the block, if the statement is a block that shadows
/// nothing that the scope can see, and the statement itself otherwise.
pub open spec fn dissolved(scope: TranslationScopeView, statement: StatementView) -> Seq<StatementView> {
    match statement {
        StatementView::Expression(ExpressionView::Block(b)) => if shadows(scope, b.statements) {
            seq![statement]
        } else {
            b.statements
        },
        _ => seq![statement],
    }
}

/// The statements with every nested block that shadows nothing that the
/// scope can see dissolved in its place.
pub open spec fn flattened(scope: TranslationScopeView, statements: Seq<StatementView>) -> Seq<StatementView>
    decreases statements.len(),
{
    if statements.len() == 0 {
        Seq::empty()
    } else {
        dissolved(scope, statements.first()) + flattened(scope, statements.drop_first())
    }
}

/// The statements with a block that ends them dissolved.
pub open spec fn tail_flattened(statements: Seq<StatementView>) -> Seq<StatementView> {
    if statements.len() == 0 {
        statements
    } else {
        match statements.last() {
            StatementView::Expression(ExpressionView::Block(b)) => statements.drop_last() + b.statements,
            _ => statements,
        }
    }
}

/// Whether the variable was assigned to although the statement recorded as
/// its declaration is no `let` among the statements.
pub open spec fn is_misplaced(statements: Seq<StatementView>, v: TranslatedVariableView) -> bool {
    match v.statement_index {
        Some(i) => v.mutation_count > 0 && !(i < statements.len() && statements[i as int] is Let),
        None => false,
    }
}

/// The test "is misplaced among the statements".
pub open spec fn misplaced_in(statements: Seq<StatementView>) -> spec_fn(TranslatedVariableView) -> bool {
    |v: TranslatedVariableView| is_misplaced(statements, v)
}

/// The block as it is left when the translation of its statements in
/// `scope` is complete: declarations marked, then nested blocks that
/// shadow nothing that `scope` can see dissolved, then a final block
/// dissolved. It is an error if a variable of the scope is misplaced; the
/// first such variable is reported.
#[verifier::opaque]
pub open spec fn finalized(block: BlockView, scope: TranslationScopeView) -> Result<BlockView, ErrorView> {
    match first_match(scope.variables, misplaced_in(block.statements)) {
        Some(v) => Err(ErrorView::MisplacedDeclaration(v.new_name)),
        None => Ok(
            BlockView {
                statements: tail_flattened(flattened(scope, marked_mutable(block.statements, scope.variables))),
                final_expr: block.final_expr,
            },
        ),
    }
}

/// Mutability is back-patched: marking the declaration of a variable that
/// was mutated makes the name mutable in the `let` at the variable's
/// index and changes no other statement.
pub proof fn lemma_mutated_variable_is_marked(statements: Seq<StatementView>, v: TranslatedVariableView, id: LetIdentifierView)
    requires
        v.statement_index is Some,
        v.statement_index->0 < statements.len(),
        v.mutation_count > 0,
        statements[v.statement_index->0 as int] matches StatementView::Let(l) && l.pattern
            == LetPatternView::Identifier(id),
        id.name == v.new_name,
    ensures
        marked_for(statements, v).len() == statements.len(),
        marked_for(statements, v)[v.statement_index->0 as int] matches StatementView::Let(l) && l.pattern
            == LetPatternView::Identifier(LetIdentifierView { is_mutable: true, name: id.name }),
        forall|j: int|
            0 <= j < statements.len() && j != v.statement_index->0 ==> marked_for(statements, v)[j] == statements[j],
{
}

/// Mutability is back-patched for one name at a time: marking a pattern
/// for a name leaves every identifier of another name as it was.
pub proof fn lemma_other_names_keep_their_flag(pattern: LetPatternView, name: Seq<char>)
    ensures
        match (pattern, pattern_marked(pattern, name)) {
            (LetPatternView::Identifier(a), LetPatternView::Identifier(b)) => a.name != name ==> b == a,
            (LetPatternView::Tuple(a), LetPatternView::Tuple(b)) => a.len() == b.len() && forall|i: int|
                0 <= i < a.len() && (#[trigger] a[i]).name != name ==> b[i] == a[i],
            _ => false,
        },
{
}

/// Mutability is back-patched only where needed: when no variable of the
/// scope was mutated, marking changes nothing, so that every declaration
/// stays as immutable as it was made.
pub proof fn lemma_unmutated_variables_stay(statements: Seq<StatementView>, variables: Seq<TranslatedVariableView>)
    requires
        forall|k: int| 0 <= k < variables.len() ==> (#[trigger] variables[k]).mutation_count == 0,
    ensures
        marked_mutable(statements, variables) == statements,
    decreases variables.len(),
{
    if variables.len() > 0 {
        let rest = variables.drop_last();
        assert forall|k: int| 0 <= k < rest.len() implies (#[trigger] rest[k]).mutation_count == 0 by {
            assert(rest[k] == variables[k]);
        }
        lemma_unmutated_variables_stay(statements, rest);
        assert(variables.last() == variables[variables.len() - 1]);
    }
}

/// Marking keeps the number of statements.
pub proof fn lemma_marked_len(statements: Seq<StatementView>, variables: Seq<TranslatedVariableView>)
    ensures
        marked_mutable(statements, variables).len() == statements.len(),
    decreases variables.len(),
{
    if variables.len() > 0 {
        lemma_marked_len(statements, variables.drop_last());
    }
}

/// Dissolving works statement by statement: what a sequence of statements
/// becomes is what its parts become, one after the other.
pub proof fn lemma_flattened_concat(
    scope: TranslationScopeView,
    a: Seq<StatementView>,
    b: Seq<StatementView>,
)
    ensures
        flattened(scope, a + b) == flattened(scope, a) + flattened(scope, b),
    decreases a.len(),
{
    if a.len() == 0 {
        assert(a + b =~= b);
        assert(flattened(scope, a) + flattened(scope, b) =~= flattened(scope, b));
    } else {
        assert((a + b).first() == a.first());
        assert((a + b).drop_first() =~= a.drop_first() + b);
        lemma_flattened_concat(scope, a.drop_first(), b);
        assert(dissolved(scope, a.first()) + (flattened(scope, a.drop_first()) + flattened(scope, b)) =~= (dissolved(
            scope,
            a.first(),
        ) + flattened(scope, a.drop_first())) + flattened(scope, b));
    }
}

/// Dead scopes are flattened: a block whose only statement is a nested
/// block that shadows nothing that the scope can see becomes the
/// statements of the nested block, with no block left around them.
pub proof fn lemma_dead_scope_is_flattened(scope: TranslationScopeView, inner: BlockView)
    requires
        !shadows(scope, inner.statements),
    ensures
        flattened(scope, seq![StatementView::Expression(ExpressionView::Block(Box::new(inner)))]) == inner.statements,
{
    let s = seq![StatementView::Expression(ExpressionView::Block(Box::new(inner)))];
    assert(s.drop_first() =~= Seq::empty());
    assert(flattened(scope, s.drop_first()) =~= Seq::empty());
    assert(dissolved(scope, s.first()) + Seq::<StatementView>::empty() =~= inner.statements);
}

/// Whether the identifier `b` is the identifier `a`, mutable if `a` is.
pub open spec fn identifier_kept(a: LetIdentifierView, b: LetIdentifierView) -> bool {
    a.name == b.name && (a.is_mutable ==> b.is_mutable)
}

/// Whether the pattern `b` binds the names of `a` in order, each mutable
/// if it is in `a`.
pub open spec fn pattern_kept(a: LetPatternView, b: LetPatternView) -> bool {
    match (a, b) {
        (LetPatternView::Identifier(x), LetPatternView::Identifier(y)) => identifier_kept(x, y),
        (LetPatternView::Tuple(xs), LetPatternView::Tuple(ys)) => xs.len() == ys.len() && forall|i: int|
            0 <= i < xs.len() ==> identifier_kept(#[trigger] xs[i], ys[i]),
        _ => false,
    }
}

/// Whether the statement `b` is the statement `a`, but for names that `b`
/// declares mutable and `a` does not.
pub open spec fn statement_kept(a: StatementView, b: StatementView) -> bool {
    match (a, b) {
        (StatementView::Let(x), StatementView::Let(y)) => pattern_kept(x.pattern, y.pattern) && x.ty == y.ty
            && x.value == y.value,
        (StatementView::Expression(x), StatementView::Expression(y)) => x == y,
        _ => false,
    }
}

/// Whether every identifier of the pattern that is named `name` is
/// mutable.
pub open spec fn binds_mutably(pattern: LetPatternView, name: Seq<char>) -> bool {
    match pattern {
        LetPatternView::Identifier(id) => id.name == name ==> id.is_mutable,
        LetPatternView::Tuple(ids) => forall|i: int| 0 <= i < ids.len() && (#[trigger] ids[i]).name == name ==> ids[i].is_mutable,
    }
}

/// Whether the statement is a `let` in which every identifier named
/// `name` is mutable.
pub open spec fn declares_mutably(statement: StatementView, name: Seq<char>) -> bool {
    match statement {
        StatementView::Let(l) => binds_mutably(l.pattern, name),
        StatementView::Expression(_) => false,
    }
}

/// Whether the statement `b` is what became of the statement `a`, and is
/// a `let` in which every identifier named `name` is mutable.
pub open spec fn is_marked_let(a: StatementView, b: StatementView, name: Seq<char>) -> bool {
    statement_kept(a, b) && declares_mutably(b, name)
}

proof fn lemma_kept_trans(a: StatementView, b: StatementView, c: StatementView)
    requires
        statement_kept(a, b),
        statement_kept(b, c),
    ensures
        statement_kept(a, c),
        forall|name: Seq<char>| declares_mutably(b, name) ==> #[trigger] declares_mutably(c, name),
{
    assert forall|name: Seq<char>| declares_mutably(b, name) implies #[trigger] declares_mutably(c, name) by {
        if let (StatementView::Let(y), StatementView::Let(z)) = (b, c) {
            if let (LetPatternView::Tuple(ys), LetPatternView::Tuple(zs)) = (y.pattern, z.pattern) {
                assert forall|i: int| 0 <= i < zs.len() && (#[trigger] zs[i]).name == name implies zs[i].is_mutable by {
                    assert(identifier_kept(ys[i], zs[i]));
                }
            }
        }
    }
}

proof fn lemma_marked_for_keeps(statements: Seq<StatementView>, v: TranslatedVariableView)
    ensures
        marked_for(statements, v).len() == statements.len(),
        forall|j: int| 0 <= j < statements.len() ==> statement_kept(statements[j], #[trigger] marked_for(statements, v)[j]),
        v.mutation_count > 0 && v.statement_index is Some && !is_misplaced(statements, v) ==> is_marked_let(
            statements[v.statement_index->0 as int],
            marked_for(statements, v)[v.statement_index->0 as int],
            v.new_name,
        ),
{
}

proof fn lemma_marked_keeps(statements: Seq<StatementView>, variables: Seq<TranslatedVariableView>)
    ensures
        marked_mutable(statements, variables).len() == statements.len(),
        forall|j: int|
            0 <= j < statements.len() ==> statement_kept(statements[j], #[trigger] marked_mutable(statements, variables)[j]),
        forall|k: int|
            0 <= k < variables.len() && (#[trigger] variables[k]).mutation_count > 0 && variables[k].statement_index
                is Some && !is_misplaced(statements, variables[k]) ==> is_marked_let(
                statements[variables[k].statement_index->0 as int],
                marked_mutable(statements, variables)[variables[k].statement_index->0 as int],
                variables[k].new_name,
            ),
    decreases variables.len(),
{
    if variables.len() > 0 {
        let rest = variables.drop_last();
        let v = variables.last();
        let before = marked_mutable(statements, rest);
        let after = marked_mutable(statements, variables);
        lemma_marked_keeps(statements, rest);
        lemma_marked_for_keeps(before, v);
        assert forall|j: int| 0 <= j < statements.len() implies statement_kept(statements[j], #[trigger] after[j]) by {
            lemma_kept_trans(statements[j], before[j], after[j]);
        }
        assert forall|k: int|
            0 <= k < variables.len() && (#[trigger] variables[k]).mutation_count > 0 && variables[k].statement_index
                is Some && !is_misplaced(statements, variables[k]) implies is_marked_let(
            statements[variables[k].statement_index->0 as int],
            after[variables[k].statement_index->0 as int],
            variables[k].new_name,
        ) by {
            let i = variables[k].statement_index->0 as int;
            lemma_kept_trans(statements[i], before[i], after[i]);
            if k < rest.len() {
                assert(rest[k] == variables[k]);
            } else {
                assert(statement_kept(statements[i], before[i]));
                assert(!is_misplaced(before, v));
            }
        }
    }
}

proof fn lemma_flattened_keeps_lets(scope: TranslationScopeView, statements: Seq<StatementView>, x: StatementView)
    requires
        statements.contains(x),
        x is Let,
    ensures
        flattened(scope, statements).contains(x),
    decreases statements.len(),
{
    let i = choose|i: int| 0 <= i < statements.len() && statements[i] == x;
    let head = dissolved(scope, statements.first());
    let tail = flattened(scope, statements.drop_first());
    if i == 0 {
        assert(head == seq![x]);
        assert((head + tail)[0] == x);
    } else {
        assert(statements.drop_first()[i - 1] == x);
        lemma_flattened_keeps_lets(scope, statements.drop_first(), x);
        let j = choose|j: int| 0 <= j < tail.len() && tail[j] == x;
        assert((head + tail)[head.len() + j] == x);
    }
}

proof fn lemma_tail_flattened_keeps_lets(statements: Seq<StatementView>, x: StatementView)
    requires
        statements.contains(x),
        x is Let,
    ensures
        tail_flattened(statements).contains(x),
{
    let i = choose|i: int| 0 <= i < statements.len() && statements[i] == x;
    match statements.last() {
        StatementView::Expression(ExpressionView::Block(b)) => {
            assert(i < statements.len() - 1);
            assert((statements.drop_last() + b.statements)[i] == x);
        },
        _ => {},
    }
}

/// Finalization keeps the end of a block that does not end in a block:
/// the last statement of the completed block is the last statement of the
/// block, if that is an expression other than a block.
pub proof fn lemma_finalization_keeps_last(block: BlockView, scope: TranslationScopeView)
    requires
        block.statements.len() > 0,
        block.statements.last() matches StatementView::Expression(e) && !(e is Block),
        finalized(block, scope) is Ok,
    ensures
        (finalized(block, scope)->Ok_0).statements.len() > 0,
        (finalized(block, scope)->Ok_0).statements.last() == block.statements.last(),
{
    reveal(finalized);
    let last = block.statements.last();
    lemma_marked_keeps(block.statements, scope.variables);
    let marked = marked_mutable(block.statements, scope.variables);
    assert(statement_kept(block.statements[block.statements.len() - 1], marked[marked.len() - 1]));
    assert(marked.last() == last);
    assert(marked =~= marked.drop_last() + seq![last]);
    lemma_flattened_concat(scope, marked.drop_last(), seq![last]);
    let single = seq![last];
    assert(single.drop_first() =~= Seq::empty());
    assert(flattened(scope, single.drop_first()) =~= Seq::empty());
    assert(flattened(scope, single) =~= seq![last]);
    let flat = flattened(scope, marked);
    assert(flat.last() == last);
}

/// Mutability is back-patched by the whole finalization: for every
/// variable of the scope that was mutated and has its declaration
/// recorded, the completed block holds the `let` that was recorded, with
/// the variable's name mutable in it and nothing else about it changed
/// but names made mutable for other variables.
pub proof fn lemma_finalization_marks_mutated(block: BlockView, scope: TranslationScopeView, k: int)
    requires
        0 <= k < scope.variables.len(),
        scope.variables[k].mutation_count > 0,
        scope.variables[k].statement_index is Some,
        finalized(block, scope) is Ok,
    ensures
        scope.variables[k].statement_index->0 < block.statements.len(),
        exists|j: int|
            0 <= j < (finalized(block, scope)->Ok_0).statements.len() && is_marked_let(
                block.statements[scope.variables[k].statement_index->0 as int],
                #[trigger] (finalized(block, scope)->Ok_0).statements[j],
                scope.variables[k].new_name,
            ),
{
    reveal(finalized);
    let v = scope.variables[k];
    let i = v.statement_index->0 as int;
    lemma_first_match_is_first(scope.variables, misplaced_in(block.statements));
    assert(!misplaced_in(block.statements)(v));
    lemma_marked_keeps(block.statements, scope.variables);
    let marked = marked_mutable(block.statements, scope.variables);
    let x = marked[i];
    assert(marked.contains(x));
    lemma_flattened_keeps_lets(scope, marked, x);
    lemma_tail_flattened_keeps_lets(flattened(scope, marked), x);
    let last = tail_flattened(flattened(scope, marked));
    let j = choose|j: int| 0 <= j < last.len() && last[j] == x;
    assert(is_marked_let(block.statements[i], (finalized(block, scope)->Ok_0).statements[j], v.new_name));
}

fn mark_identifier(id: &mut LetIdentifier, name: &str)
    ensures
        final(id)@ == identifier_marked(old(id)@, name@),
{
    if text_eq(id.name.as_str(), name) {
        id.is_mutable = true;
    }
}

fn mark_pattern(pattern: &mut LetPattern, name: &str)
    ensures
        final(pattern)@ == pattern_marked(old(pattern)@, name@),
{
    match pattern {
        LetPattern::Identifier(id) => {
            mark_identifier(id, name);
        },
        LetPattern::Tuple(ids) => {
            let mut i: usize = 0;
            let ghost before = let_identifier_models(ids@);
            while i < ids.len()
                invariant
                    i <= ids.len(),
                    ids.len() == before.len(),
                    forall|j: int| 0 <= j < i ==> (#[trigger] ids[j])@ == identifier_marked(before[j], name@),
                    forall|j: int| i <= j < ids.len() ==> (#[trigger] ids[j])@ == before[j],
                decreases ids.len() - i,
            {
                mark_identifier(&mut ids[i], name);
                i += 1;
            }
            assert(let_identifier_models(ids@) =~= Seq::new(before.len(), |i: int| identifier_marked(before[i], name@)));
        },
    }
}

fn mark_variable(statements: &mut Vec<Statement>, v: &TranslatedVariable)
    ensures
        statement_models(final(statements)@) == marked_for(statement_models(old(statements)@), v@),
{
    let ghost before = statement_models(statements@);
    match v.statement_index {
        Some(i) => {
            if v.mutation_count > 0 && i < statements.len() {
                proof {
                    reveal_with_fuel(Statement::model, 2);
                }
                match &mut statements[i] {
                    Statement::Let(l) => {
                        mark_pattern(&mut l.pattern, v.new_name.as_str());
                    },
                    _ => {},
                }
                assert(statement_models(statements@) =~= marked_for(before, v@));
            }
        },
        None => {},
    }
}

fn any_visible(scope: &TranslationScope, ids: &Vec<LetIdentifier>) -> (r: bool)
    ensures
        r == any_is_visible(scope@, let_identifier_models(ids@)),
{
    let mut i: usize = 0;
    while i < ids.len()
        invariant
            i <= ids.len(),
            forall|j: int| 0 <= j < i ==> scope@.variable_from_new_name((#[trigger] ids[j])@.name) is None,
        decreases ids.len() - i,
    {
        if scope.get_variable_from_new_name(ids[i].name.as_str()).is_some() {
            assert(is_visible(scope@, let_identifier_models(ids@)[i as int]));
            return true;
        }
        i += 1;
    }
    assert forall|j: int| 0 <= j < ids.len() implies !is_visible(scope@, #[trigger] let_identifier_models(ids@)[j]) by {
        assert(let_identifier_models(ids@)[j] == ids[j]@);
    }
    false
}

fn declares_visible_name(scope: &TranslationScope, statement: &Statement) -> (r: bool)
    ensures
        r == declares_visible(scope@, statement@),
{
    proof {
        reveal_with_fuel(Statement::model, 2);
    }
    match statement {
        Statement::Let(l) => match &l.pattern {
            LetPattern::Identifier(id) => {
                return scope.get_variable_from_new_name(id.name.as_str()).is_some();
            },
            LetPattern::Tuple(ids) => {
                return any_visible(scope, ids);
            },
        },
        Statement::Expression(_) => {
            return false;
        },
    }
}

fn shadows_scope(scope: &TranslationScope, statements: &Vec<Statement>) -> (r: bool)
    ensures
        r == shadows(scope@, statement_models(statements@)),
{
    let mut i: usize = 0;
    while i < statements.len()
        invariant
            i <= statements.len(),
            forall|j: int| 0 <= j < i ==> !declares_visible(scope@, (#[trigger] statements[j])@),
        decreases statements.len() - i,
    {
        if declares_visible_name(scope, &statements[i]) {
            assert(declares_visible(scope@, statement_models(statements@)[i as int]));
            return true;
        }
        i += 1;
    }
    assert forall|j: int| 0 <= j < statements.len() implies !declares_visible(
        scope@,
        #[trigger] statement_models(statements@)[j],
    ) by {
        assert(statement_models(statements@)[j] == statements[j]@);
    }
    false
}

fn misplaced(statements: &Vec<Statement>, v: &TranslatedVariable) -> (r: bool)
    ensures
        r == is_misplaced(statement_models(statements@), v@),
{
    proof {
        reveal_with_fuel(Statement::model, 2);
    }
    match v.statement_index {
        Some(i) => {
            if v.mutation_count == 0 {
                return false;
            }
            if i >= statements.len() {
                return true;
            }
            match &statements[i] {
                Statement::Let(_) => false,
                Statement::Expression(_) => true,
            }
        },
        None => false,
    }
}

/// Completes the translation of a block whose statements were translated
/// in `scope`: marks the declarations of the variables that were mutated,
/// dissolves the nested blocks that shadow nothing that `scope` can see,
/// and dissolves a block that ends the block. Fails, and leaves the block
/// as it is, if the statement recorded as the declaration of a mutated
/// variable is no `let` of the block.
pub fn finalize_block_translation(scope: &TranslationScope, block: &mut Block) -> (r: Result<(), Error>)
    ensures
        match finalized(old(block)@, scope@) {
            Ok(b) => r is Ok && final(block)@ == b,
            Err(e) => r is Err && r->Err_0@ == e && final(block)@ == old(block)@,
        },
{
    proof {
        reveal(finalized);
    }
    let mut statements: Vec<Statement> = Vec::new();
    core::mem::swap(&mut block.statements, &mut statements);
    let found = first_where::<TranslatedVariable, TranslatedVariableView, _>(
        &scope.variables,
        (|v: &TranslatedVariable| -> (b: bool)
                ensures
                    b == is_misplaced(statement_models(statements@), v@),
            {
                misplaced(&statements, v)
        }),
        Ghost(translated_variable_models(scope.variables@)),
        Ghost(misplaced_in(statement_models(statements@))),
    );
    if let Some(i) = found {
        block.statements = statements;
        return Err(Error::MisplacedDeclaration(scope.variables[i].new_name.clone()));
    }
    let marked = mark_all(statements, &scope.variables);
    let flat = flatten(scope, marked);
    block.statements = flatten_tail(flat);
    Ok(())
}

fn mark_all(statements: Vec<Statement>, variables: &Vec<TranslatedVariable>) -> (r: Vec<Statement>)
    ensures
        statement_models(r@) == marked_mutable(statement_models(statements@), translated_variable_models(variables@)),
{
    let ghost start = statement_models(statements@);
    let ghost models = translated_variable_models(variables@);
    let mut statements = statements;
    let mut k: usize = 0;
    assert(models.subrange(0, 0) =~= Seq::empty());
    while k < variables.len()
        invariant
            k <= variables.len(),
            models == translated_variable_models(variables@),
            statement_models(statements@) == marked_mutable(start, models.subrange(0, k as int)),
        decreases variables.len() - k,
    {
        proof {
            let s = models.subrange(0, k + 1);
            assert(s.drop_last() =~= models.subrange(0, k as int));
            assert(s.last() == variables[k as int]@);
        }
        mark_variable(&mut statements, &variables[k]);
        k += 1;
    }
    assert(models.subrange(0, k as int) =~= models);
    statements
}

fn dissolve(scope: &TranslationScope, statement: &Statement) -> (r: Vec<Statement>)
    ensures
        statement_models(r@) == dissolved(scope@, statement@),
{
    proof {
        reveal_with_fuel(Statement::model, 3);
    }
    if let Statement::Expression(Expression::Block(sub)) = statement {
        if !shadows_scope(scope, &sub.statements) {
            return clone_statements(&sub.statements);
        }
    }
    let mut r: Vec<Statement> = Vec::new();
    r.push(statement.clone());
    assert(statement_models(r@) =~= seq![statement@]);
    r
}

fn flatten(scope: &TranslationScope, statements: Vec<Statement>) -> (r: Vec<Statement>)
    ensures
        statement_models(r@) == flattened(scope@, statement_models(statements@)),
{
    let ghost view = scope@;
    let ghost models = statement_models(statements@);
    let mut result: Vec<Statement> = Vec::new();
    let mut i: usize = 0;
    assert(models.subrange(0, 0) =~= Seq::empty());
    assert(statement_models(result@) =~= flattened(view, models.subrange(0, 0)));
    while i < statements.len()
        invariant
            i <= statements.len(),
            models == statement_models(statements@),
            view == scope@,
            statement_models(result@) == flattened(view, models.subrange(0, i as int)),
        decreases statements.len() - i,
    {
        let ghost before = statement_models(result@);
        proof {
            assert(models.subrange(0, i + 1) =~= models.subrange(0, i as int) + seq![models[i as int]]);
            lemma_flattened_concat(view, models.subrange(0, i as int), seq![models[i as int]]);
            let single = seq![models[i as int]];
            assert(single.drop_first() =~= Seq::empty());
            assert(flattened(view, single.drop_first()) =~= Seq::empty());
            assert(single.first() == models[i as int]);
            assert(flattened(view, single) =~= dissolved(view, models[i as int]));
        }
        let mut part = dissolve(scope, &statements[i]);
        let ghost added = statement_models(part@);
        result.append(&mut part);
        assert(statement_models(result@) =~= before + added);
        i += 1;
    }
    assert(models.subrange(0, i as int) =~= models);
    result
}

fn flatten_tail(statements: Vec<Statement>) -> (r: Vec<Statement>)
    ensures
        statement_models(r@) == tail_flattened(statement_models(statements@)),
{
    let mut result = statements;
    let ghost flat = statement_models(result@);
    let n = result.len();
    if n == 0 {
        return result;
    }
    proof {
        reveal_with_fuel(Statement::model, 3);
    }
    let mut inner = match &result[n - 1] {
        Statement::Expression(Expression::Block(last)) => clone_statements(&last.statements),
        _ => {
            return result;
        },
    };
    let ghost added = statement_models(inner@);
    result.pop();
    result.append(&mut inner);
    assert(statement_models(result@) =~= flat.drop_last() + added);
    result
}

} // verus!
