//! Skills, shown grouped by category.

use vstd::prelude::*;

use crate::error::AppResult;
use crate::models::{created_record, RecordId};

verus! {

broadcast use vstd::string::group_string_axioms;

/// All skills, by category and then by falling proficiency.
pub const ALL_SKILLS: &'static str = "SELECT * FROM skills ORDER BY category, proficiency DESC";

/// The skills of the category bound to `$category`, by falling proficiency.
pub const SKILLS_BY_CATEGORY: &'static str = "SELECT * FROM skills WHERE category = $category ORDER BY proficiency DESC";

/// The table that holds the skills.
pub const SKILLS_TABLE: &'static str = "skills";

/// A skill.
#[derive(Debug, Clone, PartialEq, Eq)]
pub struct Skill {
    pub id: Option<RecordId>,
    pub name: String,
    pub category: String,
    pub icon: Option<String>,
    pub proficiency: i32,
}

/// The fields of a new skill.
#[derive(Debug, Clone, PartialEq, Eq)]
pub struct CreateSkill {
    pub name: String,
    pub category: String,
    pub icon: Option<String>,
    pub proficiency: i32,
}

/// The skills of one category.
#[derive(Debug, Clone, PartialEq, Eq)]
pub struct SkillGroup {
    pub category: String,
    pub skills: Vec<Skill>,
}

/// The skills of `skills` whose category is `category`, in the order given.
pub open spec fn in_category(skills: Seq<Skill>, category: Seq<char>) -> Seq<Skill>
    decreases skills.len(),
{
    if skills.len() == 0 {
        Seq::empty()
    } else if skills.last().category@ == category {
        in_category(skills.drop_last(), category).push(skills.last())
    } else {
        in_category(skills.drop_last(), category)
    }
}

/// `groups` sorts `skills` by category: one non-empty group per category that
/// occurs and none for any other, each holding that category's skills in the order given.
pub open spec fn is_grouping(skills: Seq<Skill>, groups: Seq<SkillGroup>) -> bool {
    &&& forall|i: int, j: int|
        0 <= i < j < groups.len() ==> #[trigger] groups[i].category@ != #[trigger] groups[j].category@
    &&& forall|i: int|
        0 <= i < groups.len() ==> #[trigger] groups[i].skills@ == in_category(
            skills,
            groups[i].category@,
        )
    &&& forall|k: int|
        0 <= k < skills.len() ==> exists|i: int|
            0 <= i < groups.len() && #[trigger] groups[i].category@ == #[trigger] skills[k].category@
    &&& forall|i: int| 0 <= i < groups.len() ==> #[trigger] groups[i].skills@.len() > 0
}

proof fn lemma_in_category_absent(skills: Seq<Skill>, category: Seq<char>)
    requires
        forall|k: int| 0 <= k < skills.len() ==> #[trigger] skills[k].category@ != category,
    ensures
        in_category(skills, category) == Seq::<Skill>::empty(),
    decreases skills.len(),
{
    if skills.len() > 0 {
        assert(skills.last().category@ != category);
        lemma_in_category_absent(skills.drop_last(), category);
    }
}

/// Law: in a grouping each skill is in exactly one group, the one of its
/// category, and every group's category is the category of some skill.
pub proof fn lemma_grouping_places_each_skill_once(skills: Seq<Skill>, groups: Seq<SkillGroup>, k: int)
    requires
        is_grouping(skills, groups),
        0 <= k < skills.len(),
    ensures
        exists|i: int|
            0 <= i < groups.len() && #[trigger] groups[i].category@ == skills[k].category@ && groups[i].skills@.contains(
                skills[k],
            ),
        forall|i: int|
            0 <= i < groups.len() && #[trigger] groups[i].category@ != skills[k].category@
                ==> !groups[i].skills@.contains(skills[k]),
        forall|i: int|
            0 <= i < groups.len() ==> exists|m: int|
                0 <= m < skills.len() && #[trigger] skills[m].category@ == #[trigger] groups[i].category@,
{
    assert forall|i: int| 0 <= i < groups.len() implies exists|m: int|
        0 <= m < skills.len() && #[trigger] skills[m].category@ == #[trigger] groups[i].category@ by {
        lemma_in_category_members(skills, groups[i].category@);
        assert(groups[i].skills@.len() > 0);
        let x = groups[i].skills@[0];
        assert(groups[i].skills@.contains(x));
        assert(in_category(skills, groups[i].category@).contains(x));
        let m = choose|m: int| 0 <= m < skills.len() && skills[m] == x;
        assert(skills[m].category@ == groups[i].category@);
    }
    lemma_in_category_members(skills, skills[k].category@);
    let i = choose|i: int|
        0 <= i < groups.len() && #[trigger] groups[i].category@ == #[trigger] skills[k].category@;
    assert(groups[i].skills@ == in_category(skills, groups[i].category@));
    assert forall|j: int|
        0 <= j < groups.len() && #[trigger] groups[j].category@ != skills[k].category@
            implies !groups[j].skills@.contains(skills[k]) by {
        lemma_in_category_members(skills, groups[j].category@);
        assert(groups[j].skills@ == in_category(skills, groups[j].category@));
    }
}

/// Which skills `in_category` keeps.
proof fn lemma_in_category_members(skills: Seq<Skill>, category: Seq<char>)
    ensures
        forall|x: Skill| #[trigger]
            in_category(skills, category).contains(x) <==> skills.contains(x) && x.category@
                == category,
    decreases skills.len(),
{
    if skills.len() > 0 {
        lemma_in_category_members(skills.drop_last(), category);
        let rest = skills.drop_last();
        assert forall|x: Skill| skills.contains(x) <==> rest.contains(x) || x == skills.last() by {
            if skills.contains(x) {
                let k = choose|k: int| 0 <= k < skills.len() && skills[k] == x;
                if k < skills.len() - 1 {
                    assert(rest[k] == x);
                }
            }
            if rest.contains(x) {
                let k = choose|k: int| 0 <= k < rest.len() && rest[k] == x;
                assert(skills[k] == x);
            }
            if x == skills.last() {
                assert(skills[skills.len() - 1] == x);
            }
        }
        let r = in_category(rest, category);
        assert forall|x: Skill| r.push(skills.last()).contains(x) <==> r.contains(x) || x
            == skills.last() by {
            if r.push(skills.last()).contains(x) {
                let k = choose|k: int| 0 <= k < r.len() + 1 && r.push(skills.last())[k] == x;
                if k < r.len() {
                    assert(r[k] == x);
                }
            }
            if r.contains(x) {
                let k = choose|k: int| 0 <= k < r.len() && r[k] == x;
                assert(r.push(skills.last())[k] == x);
            }
            if x == skills.last() {
                assert(r.push(skills.last())[r.len() as int] == x);
            }
        }
        assert forall|x: Skill| #[trigger]
            in_category(skills, category).contains(x) <==> skills.contains(x) && x.category@
                == category by {
            assert(skills.contains(x) <==> rest.contains(x) || x == skills.last());
            assert(r.contains(x) <==> rest.contains(x) && x.category@ == category);
            if skills.last().category@ == category {
                assert(in_category(skills, category) == r.push(skills.last()));
                assert(r.push(skills.last()).contains(x) <==> r.contains(x) || x == skills.last());
            } else {
                assert(in_category(skills, category) == r);
                if x == skills.last() {
                    assert(x.category@ != category);
                }
            }
        }
    }
}

impl Skill {
    /// The skill to store for `data`, not yet given an id.
    pub fn create(data: CreateSkill) -> (res: Skill)
        ensures
            res.id is None,
            res.name == data.name,
            res.category == data.category,
            res.icon == data.icon,
            res.proficiency == data.proficiency,
    {
        Skill { id: None, name: data.name, category: data.category, icon: data.icon, proficiency: data.proficiency }
    }

    /// What the store's answer to a create means.
    pub fn created(stored: Option<Skill>) -> (res: AppResult<Skill>)
        ensures
            stored matches Some(s) ==> res == Ok::<Skill, crate::error::AppError>(s),
            stored is None ==> (res matches Err(crate::error::AppError::DatabaseError(m)) && m@
                == "Failed to create skill"@),
    {
        let r = created_record(stored, "skill");
        proof {
            reveal_strlit("Failed to create ");
            reveal_strlit("skill");
            reveal_strlit("Failed to create skill");
        }
        r
    }

    /// The skills sorted into one non-empty group per category that occurs.
    pub fn grouped(all: Vec<Skill>) -> (res: Vec<SkillGroup>)
        ensures
            is_grouping(all@, res@),
    {
        let ghost skills = all@;
        let mut groups: Vec<SkillGroup> = Vec::new();
        let ghost mut n: int = 0;
        assert(skills.take(0) == Seq::<Skill>::empty());
        for skill in it: all.into_iter()
            invariant
                it.seq() == skills,
                n == it.index(),
                0 <= n <= skills.len(),
                is_grouping(skills.take(n), groups@),
        {
            let ghost before = skills.take(n);
            let ghost after = skills.take(n + 1);
            assert(after.drop_last() == before);
            assert(after.last() == skill);
            assert(skills[n] == skill);
            let mut j: usize = 0;
            let mut found: bool = false;
            while j < groups.len() && !found
                invariant
                    j <= groups.len(),
                    !found ==> forall|i: int| 0 <= i < j ==> groups@[i].category@ != skill.category@,
                    found ==> j < groups.len() && groups@[j as int].category@ == skill.category@,
                decreases groups.len() - j + (if found { 0int } else { 1int }),
            {
                if groups[j].category == skill.category {
                    found = true;
                } else {
                    j = j + 1;
                }
            }
            let ghost old_groups = groups@;
            if found {
                let mut g = groups.remove(j);
                g.skills.push(skill);
                groups.insert(j, g);
                assert forall|i: int| 0 <= i < groups@.len() implies #[trigger] groups@[i].category@ == old_groups[i].category@ by {
                    if i < j {
                        assert(groups@[i] == old_groups[i]);
                    } else if i > j {
                        assert(groups@[i] == old_groups[i]);
                    }
                }
                assert forall|i: int| 0 <= i < groups@.len() implies #[trigger] groups@[i].skills@ == in_category(after, groups@[i].category@) by {
                    if i != j {
                        assert(groups@[i] == old_groups[i]);
                        assert(old_groups[i].category@ != old_groups[j as int].category@);
                    }
                }
                assert forall|i: int| 0 <= i < groups@.len() implies #[trigger] groups@[i].skills@.len() > 0 by {
                    if i != j {
                        assert(groups@[i] == old_groups[i]);
                    }
                }
                assert forall|k: int| 0 <= k < after.len() implies exists|i: int|
                    0 <= i < groups@.len() && #[trigger] groups@[i].category@ == #[trigger] after[k].category@ by {
                    if k < n {
                        assert(after[k] == before[k]);
                        let i = choose|i: int| 0 <= i < old_groups.len() && #[trigger] old_groups[i].category@ == #[trigger] before[k].category@;
                        assert(groups@[i].category@ == old_groups[i].category@);
                    } else {
                        assert(groups@[j as int].category@ == after[k].category@);
                    }
                }
            } else {
                proof {
                    assert forall|k: int| 0 <= k < before.len() implies #[trigger] before[k].category@ != skill.category@ by {
                        let i = choose|i: int| 0 <= i < old_groups.len() && #[trigger] old_groups[i].category@ == #[trigger] before[k].category@;
                    }
                    lemma_in_category_absent(before, skill.category@);
                }
                let category = skill.category.clone();
                let mut members: Vec<Skill> = Vec::new();
                members.push(skill);
                groups.push(SkillGroup { category, skills: members });
                assert forall|i: int| 0 <= i < groups@.len() implies #[trigger] groups@[i].skills@ == in_category(after, groups@[i].category@) by {
                    if i < old_groups.len() {
                        assert(groups@[i] == old_groups[i]);
                    } else {
                        assert(groups@[i].skills@ == seq![skill]);
                    }
                }
                assert forall|i: int| 0 <= i < groups@.len() implies #[trigger] groups@[i].skills@.len() > 0 by {
                    if i < old_groups.len() {
                        assert(groups@[i] == old_groups[i]);
                    } else {
                        assert(groups@[i].skills@ == seq![skill]);
                    }
                }
                assert forall|k: int| 0 <= k < after.len() implies exists|i: int|
                    0 <= i < groups@.len() && #[trigger] groups@[i].category@ == #[trigger] after[k].category@ by {
                    if k < n {
                        assert(after[k] == before[k]);
                        let i = choose|i: int| 0 <= i < old_groups.len() && #[trigger] old_groups[i].category@ == #[trigger] before[k].category@;
                        assert(groups@[i] == old_groups[i]);
                    } else {
                        assert(groups@[old_groups.len() as int].category@ == after[k].category@);
                    }
                }
                assert forall|a: int, b: int| 0 <= a < b < groups@.len() implies #[trigger] groups@[a].category@ != #[trigger] groups@[b].category@ by {
                    assert(groups@[a] == old_groups[a]);
                    if b < old_groups.len() {
                        assert(groups@[b] == old_groups[b]);
                    }
                }
            }
            proof {
                n = n + 1;
            }
        }
        assert(skills.take(skills.len() as int) == skills);
        groups
    }
}

} // verus!
