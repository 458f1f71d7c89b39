//! The text that a listing of tasks prints.

use vstd::prelude::*;
use vstd::string::StringExecFns;

verus! {

/// One property of a listed task: its name and the printed form of its
/// value.
#[derive(Clone, Debug, PartialEq, Eq)]
pub struct ListedProperty {
    pub name: String,
    pub value: String,
}

/// The width of the rule that closes a task.
pub const RULE_WIDTH: usize = 117;

/// The rule as it is printed.
pub const RULE: &'static str =
    "---------------------------------------------------------------------------------------------------------------------";

/// The rule that closes a task: a run of hyphens.
pub open spec fn rule() -> Seq<char> {
    Seq::new(RULE_WIDTH as nat, |i: int| '-')
}

/// [`RULE`] is that run of hyphens.
pub proof fn lemma_rule_text()
    ensures
        RULE@ == rule(),
{
    reveal_strlit(
        "---------------------------------------------------------------------------------------------------------------------",
    );
    assert(RULE@ =~= rule());
}

/// The lines of one property: a space and the name, the value on a line of
/// its own, and two blank lines.
pub open spec fn property_text(name: Seq<char>, value: Seq<char>) -> Seq<char> {
    seq![' '] + name + seq!['\n'] + value + seq!['\n', '\n', '\n']
}

/// The lines of the properties of one task, in the order given.
pub open spec fn properties_text(properties: Seq<ListedProperty>) -> Seq<char>
    decreases properties.len(),
{
    if properties.len() == 0 {
        Seq::empty()
    } else {
        properties_text(properties.drop_last()) + property_text(
            properties.last().name@,
            properties.last().value@,
        )
    }
}

/// The lines of one task: its properties, then the rule.
pub open spec fn task_text(properties: Seq<ListedProperty>) -> Seq<char> {
    properties_text(properties) + rule() + seq!['\n']
}

/// The lines of a listing: task after task, in the order given.
pub open spec fn listing_text(tasks: Seq<Vec<ListedProperty>>) -> Seq<char>
    decreases tasks.len(),
{
    if tasks.len() == 0 {
        Seq::empty()
    } else {
        listing_text(tasks.drop_last()) + task_text(tasks.last()@)
    }
}

/// Appends the lines of one property to `out`.
fn push_property(out: &mut String, property: &ListedProperty)
    ensures
        final(out)@ == old(out)@ + property_text(property.name@, property.value@),
{
    proof {
        reveal_strlit(" ");
        reveal_strlit("\n");
        reveal_strlit("\n\n\n");
    }
    out.append(" ");
    out.append(property.name.as_str());
    out.append("\n");
    out.append(property.value.as_str());
    out.append("\n\n\n");
    assert(out@ =~= old(out)@ + property_text(property.name@, property.value@));
}

/// Appends the lines of one task to `out`.
fn push_task(out: &mut String, properties: &Vec<ListedProperty>)
    ensures
        final(out)@ == old(out)@ + task_text(properties@),
{
    let mut i: usize = 0;
    while i < properties.len()
        invariant
            i <= properties.len(),
            out@ == old(out)@ + properties_text(properties@.take(i as int)),
        decreases properties.len() - i,
    {
        push_property(out, &properties[i]);
        proof {
            let done = properties@.take(i as int + 1);
            assert(done.drop_last() =~= properties@.take(i as int));
            assert(out@ =~= old(out)@ + properties_text(done));
        }
        i += 1;
    }
    proof {
        assert(properties@.take(i as int) =~= properties@);
        lemma_rule_text();
        reveal_strlit("\n");
    }
    out.append(RULE);
    out.append("\n");
    assert(out@ =~= old(out)@ + task_text(properties@));
}

/// The text of a listing of `tasks`: what the list command prints, to the
/// last line break.
pub fn list_tasks(tasks: &Vec<Vec<ListedProperty>>) -> (text: String)
    ensures
        text@ == listing_text(tasks@),
{
    let mut text = String::new();
    let mut i: usize = 0;
    while i < tasks.len()
        invariant
            i <= tasks.len(),
            text@ == listing_text(tasks@.take(i as int)),
        decreases tasks.len() - i,
    {
        push_task(&mut text, &tasks[i]);
        proof {
            let done = tasks@.take(i as int + 1);
            assert(done.drop_last() =~= tasks@.take(i as int));
        }
        i += 1;
    }
    proof {
        assert(tasks@.take(i as int) =~= tasks@);
    }
    text
}

} // verus!
