//! Skills a node invokes on its first turn are added to that turn's input
//! once each.
use vstd::prelude::*;

use crate::text::str_eq;

verus! {

/// When a resolved skill is invoked.
#[derive(Clone, Copy, Debug, PartialEq, Eq, Structural)]
pub enum SkillInitialInvocation {
    InvokeOnInitialTurn,
    OnDemand,
}

/// A skill resolved for a node: its name and the path it is invoked by.
#[derive(Clone, Debug, PartialEq, Eq)]
pub struct ResolvedSkill {
    pub name: String,
    pub invocation_path: String,
    pub initial_invocation: SkillInitialInvocation,
}

/// One item of a turn's user input.
#[derive(Clone, Debug, PartialEq, Eq)]
pub enum UserInput {
    Text { text: String },
    Image { image_url: String },
    LocalImage { path: String },
    Skill { name: String, path: String },
}

pub open spec fn spec_is_skill(item: UserInput, name: Seq<char>, path: Seq<char>) -> bool {
    item matches UserInput::Skill { name: n, path: p } && n@ == name && p@ == path
}

pub open spec fn spec_has_skill(items: Seq<UserInput>, name: Seq<char>, path: Seq<char>) -> bool {
    exists|i: int| 0 <= i < items.len() && spec_is_skill(#[trigger] items[i], name, path)
}

/// The input after the skills up to the last one are applied in order.
pub open spec fn spec_apply_skills(items: Seq<UserInput>, skills: Seq<ResolvedSkill>) -> Seq<UserInput>
    decreases skills.len(),
{
    if skills.len() == 0 {
        items
    } else {
        let prev = spec_apply_skills(items, skills.drop_last());
        let s = skills.last();
        if s.initial_invocation == SkillInitialInvocation::InvokeOnInitialTurn && !spec_has_skill(
            prev,
            s.name@,
            s.invocation_path@,
        ) {
            prev.push(UserInput::Skill { name: s.name, path: s.invocation_path })
        } else {
            prev
        }
    }
}

proof fn lemma_apply_extends(items: Seq<UserInput>, skills: Seq<ResolvedSkill>)
    ensures
        spec_apply_skills(items, skills).len() >= items.len(),
        forall|i: int| 0 <= i < items.len() ==> #[trigger] spec_apply_skills(items, skills)[i] == items[i],
    decreases skills.len(),
{
    if skills.len() > 0 {
        lemma_apply_extends(items, skills.drop_last());
    }
}

proof fn lemma_apply_contains(items: Seq<UserInput>, skills: Seq<ResolvedSkill>, j: int)
    requires
        0 <= j < skills.len(),
        skills[j].initial_invocation == SkillInitialInvocation::InvokeOnInitialTurn,
    ensures
        spec_has_skill(spec_apply_skills(items, skills), skills[j].name@, skills[j].invocation_path@),
    decreases skills.len(),
{
    let prev = spec_apply_skills(items, skills.drop_last());
    let out = spec_apply_skills(items, skills);
    let (name, path) = (skills[j].name@, skills[j].invocation_path@);
    if j < skills.len() - 1 {
        lemma_apply_contains(items, skills.drop_last(), j);
        let k = choose|k: int| 0 <= k < prev.len() && spec_is_skill(#[trigger] prev[k], name, path);
        assert(out[k] == prev[k]);
        assert(spec_is_skill(out[k], name, path));
    } else if !spec_has_skill(prev, name, path) {
        assert(spec_is_skill(out[prev.len() as int], name, path));
    }
}

proof fn lemma_apply_noop(x: Seq<UserInput>, skills: Seq<ResolvedSkill>)
    requires
        forall|j: int|
            0 <= j < skills.len() && (#[trigger] skills[j]).initial_invocation
                == SkillInitialInvocation::InvokeOnInitialTurn ==> spec_has_skill(
                x,
                skills[j].name@,
                skills[j].invocation_path@,
            ),
    ensures
        spec_apply_skills(x, skills) == x,
    decreases skills.len(),
{
    if skills.len() > 0 {
        assert forall|j: int|
            0 <= j < skills.drop_last().len() && (#[trigger] skills.drop_last()[j]).initial_invocation
                == SkillInitialInvocation::InvokeOnInitialTurn implies spec_has_skill(
            x,
            skills.drop_last()[j].name@,
            skills.drop_last()[j].invocation_path@,
        ) by {
            assert(skills.drop_last()[j] == skills[j]);
        }
        lemma_apply_noop(x, skills.drop_last());
        assert(skills.last() == skills[skills.len() - 1]);
    }
}

/// Adding the initial skills is idempotent: a turn input that already went
/// through it gains nothing the second time.
pub proof fn law_initial_skills_idempotent(items: Seq<UserInput>, skills: Seq<ResolvedSkill>)
    ensures
        spec_apply_skills(spec_apply_skills(items, skills), skills) == spec_apply_skills(items, skills),
{
    let x = spec_apply_skills(items, skills);
    assert forall|j: int|
        0 <= j < skills.len() && (#[trigger] skills[j]).initial_invocation == SkillInitialInvocation::InvokeOnInitialTurn
            implies spec_has_skill(x, skills[j].name@, skills[j].invocation_path@) by {
        lemma_apply_contains(items, skills, j);
    }
    lemma_apply_noop(x, skills);
}

fn has_skill(items: &Vec<UserInput>, name: &str, path: &str) -> (r: bool)
    ensures
        r == spec_has_skill(items@, name@, path@),
{
    let mut i: usize = 0;
    while i < items.len()
        invariant
            i <= items@.len(),
            forall|m: int| 0 <= m < i ==> !spec_is_skill(#[trigger] items@[m], name@, path@),
        decreases items.len() - i,
    {
        if let UserInput::Skill { name: n, path: p } = &items[i] {
            if str_eq(n.as_str(), name) && str_eq(p.as_str(), path) {
                assert(spec_is_skill(items@[i as int], name@, path@));
                return true;
            }
        }
        i += 1;
    }
    false
}

/// Adds each skill invoked on the initial turn that the input does not
/// already name, in the skills' order.
pub fn apply_initial_skill_invocations(input: Vec<UserInput>, skills: &Vec<ResolvedSkill>) -> (r: Vec<UserInput>)
    ensures
        r@ == spec_apply_skills(input@, skills@),
{
    let mut items = input;
    let mut i: usize = 0;
    while i < skills.len()
        invariant
            i <= skills@.len(),
            items@ == spec_apply_skills(input@, skills@.take(i as int)),
        decreases skills.len() - i,
    {
        let skill = &skills[i];
        proof {
            assert(skills@.take(i + 1).drop_last() =~= skills@.take(i as int));
            assert(skills@.take(i + 1).last() == skills@[i as int]);
        }
        if skill.initial_invocation == SkillInitialInvocation::InvokeOnInitialTurn && !has_skill(
            &items,
            skill.name.as_str(),
            skill.invocation_path.as_str(),
        ) {
            items.push(UserInput::Skill { name: skill.name.clone(), path: skill.invocation_path.clone() });
        }
        i += 1;
    }
    proof {
        assert(skills@.take(skills@.len() as int) =~= skills@);
    }
    items
}

} // verus!
