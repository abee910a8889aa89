//! A job's status as one embed: its state, its layers and, for a job of
//! several objects, how many of each kind are still printed.
use vstd::prelude::*;

use super::{fields_view, layer_string, layer_text, Embed, EmbedField, EmbedFieldView, EmbedView};
use crate::moonraker::status::{
    objects_view, state_text, JobInfo, JobInfoView, ObjectInformation, ObjectInformationView,
    State, StateView,
};
use crate::text::{decimal, decimal_string};

verus! {

/// The objects of a job that share a name before its first dot.
#[derive(Debug, PartialEq, Eq)]
pub struct ObjectGroup {
    pub name: String,
    pub total: usize,
    pub excluded: usize,
}

pub struct ObjectGroupView {
    pub name: Seq<char>,
    pub total: nat,
    pub excluded: nat,
}

impl View for ObjectGroup {
    type V = ObjectGroupView;

    open spec fn view(&self) -> ObjectGroupView {
        ObjectGroupView { name: self.name@, total: self.total as nat, excluded: self.excluded as nat }
    }
}

pub open spec fn groups_view(groups: Seq<ObjectGroup>) -> Seq<ObjectGroupView> {
    groups.map_values(|g: ObjectGroup| g@)
}

/// Whether position `k` of `name` holds its first dot.
pub open spec fn is_first_dot(name: Seq<char>, k: int) -> bool {
    &&& 0 <= k < name.len()
    &&& name[k] == '.'
    &&& forall|m: int| 0 <= m < k ==> name[m] != '.'
}

/// The part of an object's name before its first dot, or the whole name
/// when it has none.
pub open spec fn group_name(name: Seq<char>) -> Seq<char> {
    if exists|k: int| is_first_dot(name, k) {
        name.subrange(0, choose|k: int| is_first_dot(name, k))
    } else {
        name
    }
}

/// `groups` with one more object of group `name` counted.
pub open spec fn add_object(groups: Seq<ObjectGroupView>, name: Seq<char>, excluded: bool) -> Seq<
    ObjectGroupView,
> {
    if exists|i: int| 0 <= i < groups.len() && groups[i].name == name {
        let i = choose|i: int| 0 <= i < groups.len() && groups[i].name == name;
        groups.update(
            i,
            ObjectGroupView {
                name,
                total: groups[i].total + 1,
                excluded: groups[i].excluded + if excluded {
                    1nat
                } else {
                    0nat
                },
            },
        )
    } else {
        groups.push(
            ObjectGroupView {
                name,
                total: 1,
                excluded: if excluded {
                    1nat
                } else {
                    0nat
                },
            },
        )
    }
}

/// The groups of a job's objects, in the order in which each group first
/// appears, with how many objects each has and how many of those were
/// excluded.
pub open spec fn groups_of(objects: Seq<ObjectInformationView>) -> Seq<ObjectGroupView>
    decreases objects.len(),
{
    if objects.len() == 0 {
        Seq::empty()
    } else {
        add_object(
            groups_of(objects.drop_last()),
            group_name(objects.last().name),
            objects.last().excluded,
        )
    }
}

/// How many objects were not excluded.
pub open spec fn count_included(objects: Seq<ObjectInformationView>) -> nat
    decreases objects.len(),
{
    if objects.len() == 0 {
        0
    } else {
        count_included(objects.drop_last()) + if objects.last().excluded {
            0nat
        } else {
            1nat
        }
    }
}

/// One line per group: "name: printed / total".
pub open spec fn group_line(g: ObjectGroupView) -> Seq<char> {
    g.name + ": "@ + decimal((g.total - g.excluded) as nat) + " / "@ + decimal(g.total)
}

/// The lines joined by line breaks.
pub open spec fn join_lines(lines: Seq<Seq<char>>) -> Seq<char>
    decreases lines.len(),
{
    if lines.len() == 0 {
        Seq::empty()
    } else if lines.len() == 1 {
        lines[0]
    } else {
        join_lines(lines.drop_last()) + "\n"@ + lines.last()
    }
}

/// The field that counts a job's objects.
pub open spec fn objects_field(objects: Seq<ObjectInformationView>) -> EmbedFieldView {
    EmbedFieldView {
        name: "Objects "@ + decimal(count_included(objects)) + " / "@ + decimal(objects.len()),
        value: join_lines(groups_of(objects).map_values(|g: ObjectGroupView| group_line(g))),
        inline: false,
    }
}

/// The embed that shows a job: its state and layers, and its objects when
/// it has any.
pub open spec fn job_status_embed(state: StateView, job: JobInfoView) -> EmbedView {
    let base = seq![
        EmbedFieldView { name: "State"@, value: state_text(state), inline: true },
        EmbedFieldView {
            name: "Layers"@,
            value: layer_text(job.current_layer, job.total_layer),
            inline: true,
        },
    ];
    EmbedView {
        title: "Job Status"@,
        description: None,
        fields: if job.objects.len() == 0 {
            base
        } else {
            base.push(objects_field(job.objects))
        },
    }
}

/// The group name of an object's name.
pub fn group_name_of(name: &String) -> (r: String)
    ensures
        r@ == group_name(name@),
{
    let s = name.as_str();
    let n = s.unicode_len();
    let mut j: usize = 0;
    while j < n && s.get_char(j) != '.'
        invariant
            n == name@.len(),
            s@ == name@,
            j <= n,
            forall|m: int| 0 <= m < j ==> name@[m] != '.',
        decreases n - j,
    {
        j = j + 1;
    }
    if j < n {
        proof {
            assert(is_first_dot(name@, j as int));
            let k = choose|k: int| is_first_dot(name@, k);
            assert(k == j) by {
                if k < j {
                    assert(name@[k] != '.');
                } else if k > j {
                    assert(name@[j as int] != '.');
                }
            }
        }
        String::from_str(s.substring_char(0, j))
    } else {
        assert(!exists|k: int| is_first_dot(name@, k));
        assert(name@.subrange(0, n as int) =~= name@);
        String::from_str(s.substring_char(0, n))
    }
}

/// Whether the groups have pairwise different names.
pub open spec fn distinct_names(groups: Seq<ObjectGroupView>) -> bool {
    forall|a: int, b: int|
        0 <= a < groups.len() && 0 <= b < groups.len() && a != b ==> groups[a].name
            != groups[b].name
}

/// Groups the objects by the name before the first dot, in order of first
/// appearance.
pub fn object_groups(objects: &Vec<ObjectInformation>) -> (r: Vec<ObjectGroup>)
    ensures
        groups_view(r@) == groups_of(objects_view(objects@)),
        forall|k: int| 0 <= k < r@.len() ==> r@[k].excluded <= r@[k].total,
{
    let ghost objs = objects_view(objects@);
    let mut groups: Vec<ObjectGroup> = Vec::new();
    let mut i: usize = 0;
    while i < objects.len()
        invariant
            objs == objects_view(objects@),
            i <= objects@.len(),
            groups_view(groups@) == groups_of(objs.take(i as int)),
            distinct_names(groups_view(groups@)),
            forall|k: int|
                0 <= k < groups@.len() ==> (#[trigger] groups@[k]).excluded <= groups@[k].total <= i,
        decreases objects@.len() - i,
    {
        let name = group_name_of(&objects[i].name);
        let excluded = objects[i].excluded;
        assert(objs.take(i + 1).drop_last() =~= objs.take(i as int));
        assert(objs.take(i + 1).last() == objs[i as int]);
        let ghost gs = groups_view(groups@);
        let mut j: usize = 0;
        while j < groups.len() && groups[j].name != name
            invariant
                gs == groups_view(groups@),
                j <= groups@.len(),
                forall|m: int| 0 <= m < j ==> gs[m].name != name@,
            decreases groups@.len() - j,
        {
            j = j + 1;
        }
        if j < groups.len() {
            assert(groups@[j as int].total <= i);
            let total = groups[j].total + 1;
            let ex = if excluded {
                groups[j].excluded + 1
            } else {
                groups[j].excluded
            };
            proof {
                assert(gs[j as int].name == name@);
                let c = choose|c: int| 0 <= c < gs.len() && gs[c].name == name@;
                assert(c == j);
            }
            let g = ObjectGroup { name, total, excluded: ex };
            groups.set(j, g);
            assert(groups_view(groups@) =~= gs.update(j as int, g@));
        } else {
            let g = ObjectGroup {
                name,
                total: 1,
                excluded: if excluded {
                    1
                } else {
                    0
                },
            };
            groups.push(g);
            assert(groups_view(groups@) =~= gs.push(g@));
        }
        i = i + 1;
    }
    assert(objs.take(i as int) =~= objs);
    groups
}

/// How many of the objects were not excluded.
pub fn included_count(objects: &Vec<ObjectInformation>) -> (r: usize)
    ensures
        r == count_included(objects_view(objects@)),
{
    let ghost objs = objects_view(objects@);
    let mut count: usize = 0;
    let mut i: usize = 0;
    while i < objects.len()
        invariant
            objs == objects_view(objects@),
            i <= objects@.len(),
            count == count_included(objs.take(i as int)),
            count <= i,
        decreases objects@.len() - i,
    {
        assert(objs.take(i + 1).drop_last() =~= objs.take(i as int));
        if !objects[i].excluded {
            count = count + 1;
        }
        i = i + 1;
    }
    assert(objs.take(i as int) =~= objs);
    count
}

/// Renders one group's line.
pub fn group_line_of(g: &ObjectGroup) -> (r: String)
    requires
        g.excluded <= g.total,
    ensures
        r@ == group_line(g@),
{
    g.name.clone().concat(": ").concat(decimal_string((g.total - g.excluded) as u64).as_str()).concat(
        " / ",
    ).concat(decimal_string(g.total as u64).as_str())
}

/// The lines of all groups, joined by line breaks.
pub fn group_lines(groups: &Vec<ObjectGroup>) -> (r: String)
    requires
        forall|k: int| 0 <= k < groups@.len() ==> groups@[k].excluded <= groups@[k].total,
    ensures
        r@ == join_lines(groups_view(groups@).map_values(|g: ObjectGroupView| group_line(g))),
{
    let ghost lines = groups_view(groups@).map_values(|g: ObjectGroupView| group_line(g));
    let mut text = String::new();
    let mut k: usize = 0;
    while k < groups.len()
        invariant
            lines == groups_view(groups@).map_values(|g: ObjectGroupView| group_line(g)),
            forall|m: int| 0 <= m < groups@.len() ==> groups@[m].excluded <= groups@[m].total,
            k <= groups@.len(),
            text@ == join_lines(lines.take(k as int)),
        decreases groups@.len() - k,
    {
        let line = group_line_of(&groups[k]);
        assert(lines.take(k + 1).drop_last() =~= lines.take(k as int));
        assert(lines.take(k + 1).last() == line@);
        if k == 0 {
            text = line;
        } else {
            text = text.concat("\n").concat(line.as_str());
        }
        k = k + 1;
    }
    assert(lines.take(k as int) =~= lines);
    text
}

/// A job's status, ready to be posted.
#[derive(Debug, PartialEq, Eq)]
pub struct JobStatusMessage {
    pub embed: Embed,
}

impl JobStatusMessage {
    /// Builds the status embed of a job in the given state.
    pub fn new(state: &State, job: &JobInfo) -> (r: JobStatusMessage)
        ensures
            r.embed@ == job_status_embed(state@, job@),
    {
        let mut fields: Vec<EmbedField> = Vec::new();
        let state_field = EmbedField {
            name: String::from_str("State"),
            value: state.to_string(),
            inline: true,
        };
        fields.push(state_field);
        let layers_field = EmbedField {
            name: String::from_str("Layers"),
            value: layer_string(job.current_layer, job.total_layer),
            inline: true,
        };
        fields.push(layers_field);
        let ghost base = fields_view(fields@);
        assert(base =~= job_status_embed(state@, job@).fields.take(2));
        if job.objects.len() > 0 {
            let groups = object_groups(&job.objects);
            let included = included_count(&job.objects);
            let name = String::from_str("Objects ").concat(
                decimal_string(included as u64).as_str(),
            ).concat(" / ").concat(decimal_string(job.objects.len() as u64).as_str());
            let objects_field = EmbedField { name, value: group_lines(&groups), inline: false };
            fields.push(objects_field);
            assert(fields_view(fields@) =~= base.push(objects_field@));
        }
        assert(fields_view(fields@) =~= job_status_embed(state@, job@).fields);
        JobStatusMessage {
            embed: Embed { title: String::from_str("Job Status"), description: None, fields },
        }
    }
}

} // verus!
