//! The item dispatcher and the statement walker.

use vstd::prelude::*;
use vstd::string::*;
use crate::expression::parse_expression;
use crate::model::{item_models, statement_models};
use crate::narration::{
    block_emitted, emitted_by_each_item, emitted_by_each_statement, item_emitted, local_sentence,
    narration, statement_emitted,
};
use crate::support::{block_supported, item_supported, items_supported, statement_supported};
use crate::syntax::{Block, Item, Local, Pattern, Statement};
use crate::text::push_line;

verus! {

/// Narrates a list of items: the lines of each, in order.
pub fn narrate(items: &Vec<Item>) -> (lines: Vec<String>)
    requires
        items_supported(item_models(items@)),
    ensures
        lines.deep_view() == narration(item_models(items@)),
{
    let ghost models = item_models(items@);
    let ghost emitted = emitted_by_each_item(models);
    let mut lines: Vec<String> = Vec::new();
    let mut i: usize = 0;
    assert(emitted.take(0) =~= Seq::empty());
    assert(lines.deep_view() =~= Seq::empty());
    while i < items.len()
        invariant
            i <= items.len(),
            models == item_models(items@),
            emitted == emitted_by_each_item(models),
            items_supported(models),
            lines.deep_view() == emitted.take(i as int).flatten(),
        decreases items.len() - i,
    {
        assert(item_supported(models[i as int]));
        parse_item(&items[i], &mut lines);
        proof {
            assert(emitted.take(i + 1) =~= emitted.take(i as int).push(emitted[i as int]));
            emitted.take(i as int).lemma_flatten_push(emitted[i as int]);
        }
        i += 1;
    }
    assert(emitted.take(items.len() as int) =~= emitted);
    lines
}

/// Tests whether every item of the list can be narrated.
pub fn all_supported(items: &Vec<Item>) -> (supported: bool)
    ensures
        supported == items_supported(item_models(items@)),
{
    let ghost models = item_models(items@);
    let mut i: usize = 0;
    while i < items.len()
        invariant
            i <= items.len(),
            models == item_models(items@),
            forall|k: int| 0 <= k < i ==> item_supported(#[trigger] models[k]),
        decreases items.len() - i,
    {
        if !items[i].is_supported() {
            assert(!item_supported(models[i as int]));
            return false;
        }
        i += 1;
    }
    true
}

/// Narrates a list of items where every one of them can be narrated, and
/// says so where one cannot.
pub fn try_narrate(items: &Vec<Item>) -> (lines: Option<Vec<String>>)
    ensures
        match lines {
            Some(lines) => items_supported(item_models(items@)) && lines.deep_view() == narration(
                item_models(items@),
            ),
            None => !items_supported(item_models(items@)),
        },
{
    if all_supported(items) {
        Some(narrate(items))
    } else {
        None
    }
}

/// Narrates an item: a module by one line, a function by one line and the
/// lines of its body, any other item by nothing.
pub fn parse_item(item: &Item, out: &mut Vec<String>)
    requires
        item_supported(item@),
    ensures
        final(out).deep_view() == old(out).deep_view() + item_emitted(item@),
    decreases item,
{
    match item {
        Item::Module { name } => {
            let mut line = String::from_str("Adding ");
            line.append(name.as_str());
            line.append(" as a module");
            push_line(out, line);
        },
        Item::Function { name, body } => {
            let mut line = String::from_str("Entering ");
            line.append(name.as_str());
            line.append(" function");
            push_line(out, line);
            parse_block(body, out);
        },
        Item::Other => {},
    }
}

/// Narrates a block: its statements, in source order.
pub fn parse_block(block: &Block, out: &mut Vec<String>)
    requires
        block_supported(block@),
    ensures
        final(out).deep_view() == old(out).deep_view() + block_emitted(block@),
    decreases block,
{
    let ghost models = statement_models(block.statements@);
    let ghost emitted = emitted_by_each_statement(models);
    let mut i: usize = 0;
    assert(emitted.take(0) =~= Seq::empty());
    while i < block.statements.len()
        invariant
            i <= block.statements.len(),
            models == statement_models(block.statements@),
            models == block@.statements,
            emitted == emitted_by_each_statement(models),
            block_supported(block@),
            out.deep_view() == old(out).deep_view() + emitted.take(i as int).flatten(),
        decreases block.statements.len() - i,
    {
        assert(statement_supported(block@.statements[i as int]));
        parse_statement(&block.statements[i], out);
        proof {
            assert(emitted.take(i + 1) =~= emitted.take(i as int).push(emitted[i as int]));
            emitted.take(i as int).lemma_flatten_push(emitted[i as int]);
        }
        i += 1;
    }
    assert(emitted.take(block.statements.len() as int) =~= emitted);
}

/// Narrates a statement: a binding by its sentence, if it has one; an
/// expression by what it emits and then its text; a nested item as an item;
/// any other statement by nothing.
pub fn parse_statement(statement: &Statement, out: &mut Vec<String>)
    requires
        statement_supported(statement@),
    ensures
        final(out).deep_view() == old(out).deep_view() + statement_emitted(statement@),
    decreases statement,
{
    match statement {
        Statement::LocalBinding(local) => {
            match parse_local(local) {
                Some(sentence) => push_line(out, sentence),
                None => {},
            }
        },
        Statement::ExpressionStatement(expression) => {
            let text = parse_expression(expression, out);
            push_line(out, text);
        },
        Statement::NestedItem(item) => parse_item(item, out),
        Statement::Other => {},
    }
}

/// The sentence for a `let` binding whose pattern is a single identifier;
/// `None` for any other pattern.
pub fn parse_local(local: &Local) -> (sentence: Option<String>)
    ensures
        match local_sentence(local@) {
            Some(text) => sentence is Some && sentence->0@ == text,
            None => sentence is None,
        },
{
    match &local.pattern {
        Pattern::Identifier(name) => {
            let mut text = String::from_str("Declared a local variable: ");
            text.append(name.as_str());
            Some(text)
        },
        _ => None,
    }
}

} // verus!
