//! The values that the command line gives, gathered into the shape of the
//! configuration that they override.

use vstd::prelude::*;
use crate::cli::{key_path, split_composite_key};
use crate::text::{same_text, texts};

verus! {

/// A value as the command line gives it.
#[derive(Debug)]
pub enum CliValue {
    Text(String),
    Flag(bool),
    Number(usize),
}

/// A part of the configuration: a value, or an object with its members.
#[derive(Debug)]
pub enum CliNode {
    Value(CliValue),
    Object(Vec<CliMember>),
}

/// One member of an object.
#[derive(Debug)]
pub struct CliMember {
    pub name: String,
    pub node: CliNode,
}

pub enum CliValueView {
    Text(Seq<char>),
    Flag(bool),
    Number(usize),
}

pub enum CliNodeView {
    Value(CliValueView),
    Object(Seq<CliMemberView>),
}

pub struct CliMemberView {
    pub name: Seq<char>,
    pub node: CliNodeView,
}

impl View for CliValue {
    type V = CliValueView;

    open spec fn view(&self) -> CliValueView {
        match *self {
            CliValue::Text(t) => CliValueView::Text(t@),
            CliValue::Flag(b) => CliValueView::Flag(b),
            CliValue::Number(n) => CliValueView::Number(n),
        }
    }
}

/// The view of a part of the configuration.
pub open spec fn node_view(node: CliNode) -> CliNodeView
    decreases node, 1nat,
{
    match node {
        CliNode::Value(v) => CliNodeView::Value(v@),
        CliNode::Object(members) => CliNodeView::Object(members_view(members@)),
    }
}

/// The views of the members of an object, in their order.
pub open spec fn members_view(members: Seq<CliMember>) -> Seq<CliMemberView>
    decreases members, 0nat,
{
    if members.len() == 0 {
        Seq::empty()
    } else {
        members_view(members.drop_last()).push(
            CliMemberView { name: members.last().name@, node: node_view(members.last().node) },
        )
    }
}

/// The view of a list of members holds the view of each member in its place.
pub proof fn lemma_members_view(members: Seq<CliMember>)
    ensures
        members_view(members).len() == members.len(),
        forall|k: int|
            0 <= k < members.len() ==> #[trigger] members_view(members)[k] == (CliMemberView {
                name: members[k].name@,
                node: node_view(members[k].node),
            }),
    decreases members.len(),
{
    if members.len() > 0 {
        lemma_members_view(members.drop_last());
    }
}

/// The place of the first member with the given name, looked for from `at`
/// on.
pub open spec fn first_named_from(members: Seq<CliMemberView>, name: Seq<char>, at: int) -> Option<int>
    decreases members.len() - at,
{
    if at >= members.len() {
        None
    } else if members[at].name == name {
        Some(at)
    } else {
        first_named_from(members, name, at + 1)
    }
}

/// The place of the first member with the given name.
pub open spec fn first_named(members: Seq<CliMemberView>, name: Seq<char>) -> Option<int> {
    first_named_from(members, name, 0)
}

/// The members once the member `name` is `node`: it takes the place of the
/// first member of that name, or comes last where there is none.
pub open spec fn with_member(members: Seq<CliMemberView>, name: Seq<char>, node: CliNodeView) -> Seq<
    CliMemberView,
> {
    match first_named(members, name) {
        Some(i) => members.update(i, CliMemberView { name, node }),
        None => members.push(CliMemberView { name, node }),
    }
}

/// Why a value has no place in the configuration.
#[derive(Debug, Clone, Copy, PartialEq, Eq, Structural)]
pub enum PathError {
    /// The path leads through a member that is a value and no object.
    NotAnObject,
}

impl PathError {
    /// The message for the user.
    pub fn message(&self) -> (text: String)
        ensures
            text@ == "a value stands where an object is expected"@,
    {
        match self {
            PathError::NotAnObject => "a value stands where an object is expected".to_owned(),
        }
    }
}

/// The members once `value` stands at the end of `path`.
///
/// The last part of the path names the member that becomes the value,
/// whatever it was. Every part before it names an object: one that is there
/// is gone into, one that is missing is made. A path that leads through a
/// value has no end; a path without parts changes nothing.
pub open spec fn inserted(members: Seq<CliMemberView>, path: Seq<Seq<char>>, value: CliValueView) -> Result<
    Seq<CliMemberView>,
    PathError,
>
    decreases path.len(),
{
    if path.len() == 0 {
        Ok(members)
    } else if path.len() == 1 {
        Ok(with_member(members, path[0], CliNodeView::Value(value)))
    } else {
        let inner: Result<Seq<CliMemberView>, PathError> = match first_named(members, path[0]) {
            None => Ok(Seq::empty()),
            Some(i) => match members[i].node {
                CliNodeView::Object(inside) => Ok(inside),
                CliNodeView::Value(_) => Err(PathError::NotAnObject),
            },
        };
        match inner {
            Err(e) => Err(e),
            Ok(inside) => match inserted(inside, path.drop_first(), value) {
                Err(e) => Err(e),
                Ok(changed) => Ok(with_member(members, path[0], CliNodeView::Object(changed))),
            },
        }
    }
}

/// The view of a list of members or of the error in its place.
pub open spec fn result_view(members: Result<Vec<CliMember>, PathError>) -> Result<Seq<CliMemberView>, PathError> {
    match members {
        Ok(m) => Ok(members_view(m@)),
        Err(e) => Err(e),
    }
}

fn find_member(members: &Vec<CliMember>, name: &str) -> (found: Option<usize>)
    ensures
        match found {
            Some(i) => first_named(members_view(members@), name@) == Some(i as int) && i < members.len(),
            None => first_named(members_view(members@), name@) is None,
        },
{
    proof {
        lemma_members_view(members@);
    }
    let mut i: usize = 0;
    while i < members.len()
        invariant
            0 <= i <= members.len(),
            members_view(members@).len() == members.len(),
            forall|k: int|
                0 <= k < members.len() ==> #[trigger] members_view(members@)[k].name == members@[k].name@,
            first_named(members_view(members@), name@) == first_named_from(
                members_view(members@),
                name@,
                i as int,
            ),
        decreases members.len() - i,
    {
        if same_text(members[i].name.as_str(), name) {
            return Some(i);
        }
        i = i + 1;
    }
    None
}

fn put_member(members: Vec<CliMember>, found: Option<usize>, name: String, node: CliNode) -> (changed: Vec<
    CliMember,
>)
    requires
        match found {
            Some(i) => first_named(members_view(members@), name@) == Some(i as int) && i < members.len(),
            None => first_named(members_view(members@), name@) is None,
        },
    ensures
        members_view(changed@) == with_member(members_view(members@), name@, node_view(node)),
{
    let mut changed = members;
    let ghost before = changed@;
    let member = CliMember { name, node };
    match found {
        Some(i) => {
            changed.remove(i);
            changed.insert(i, member);
            proof {
                lemma_members_view(before);
                lemma_members_view(changed@);
                assert(changed@ == before.update(i as int, member));
                assert(members_view(changed@) == members_view(before).update(
                    i as int,
                    CliMemberView { name: name@, node: node_view(node) },
                ));
            }
        },
        None => {
            changed.push(member);
            proof {
                assert(changed@.drop_last() == before);
            }
        },
    }
    changed
}

fn insert_at(members: Vec<CliMember>, path: &Vec<String>, from: usize, value: CliValue) -> (changed: Result<
    Vec<CliMember>,
    PathError,
>)
    requires
        from <= path.len(),
    ensures
        result_view(changed) == inserted(members_view(members@), texts(path@).skip(from as int), value@),
    decreases path.len() - from,
{
    let ghost rest = texts(path@).skip(from as int);
    if from == path.len() {
        return Ok(members);
    }
    assert(rest[0] == path@[from as int]@);
    let found = find_member(&members, path[from].as_str());
    if from + 1 == path.len() {
        return Ok(put_member(members, found, path[from].clone(), CliNode::Value(value)));
    }
    assert(rest.drop_first() == texts(path@).skip(from as int + 1));
    let mut members = members;
    let ghost before = members@;
    let inside: Vec<CliMember> = match found {
        None => Vec::new(),
        Some(i) => {
            proof {
                lemma_members_view(before);
            }
            let is_object = match &members[i].node {
                CliNode::Object(_) => true,
                CliNode::Value(_) => false,
            };
            if !is_object {
                return Err(PathError::NotAnObject);
            }
            let member = members.remove(i);
            let inside = match member.node {
                CliNode::Object(inside) => inside,
                CliNode::Value(_) => Vec::new(),
            };
            members.insert(i, CliMember { name: member.name, node: CliNode::Object(Vec::new()) });
            proof {
                lemma_members_view(members@);
                assert(members_view(members@) == members_view(before).update(
                    i as int,
                    CliMemberView { name: before[i as int].name@, node: CliNodeView::Object(Seq::empty()) },
                ));
                lemma_first_named_after_update(
                    members_view(before),
                    i as int,
                    CliNodeView::Object(Seq::empty()),
                    path@[from as int]@,
                );
            }
            inside
        },
    };
    match insert_at(inside, path, from + 1, value) {
        Err(e) => Err(e),
        Ok(changed) => {
            let ghost holder = members_view(members@);
            let out = put_member(members, found, path[from].clone(), CliNode::Object(changed));
            proof {
                lemma_members_view(before);
                match found {
                    Some(i) => {
                        assert(holder.update(
                            i as int,
                            CliMemberView { name: path@[from as int]@, node: node_view(CliNode::Object(changed)) },
                        ) == members_view(before).update(
                            i as int,
                            CliMemberView { name: path@[from as int]@, node: node_view(CliNode::Object(changed)) },
                        ));
                    },
                    None => {},
                }
            }
            Ok(out)
        },
    }
}

/// Changing what a member holds, and not its name, leaves the first member
/// of every name where it was.
pub proof fn lemma_first_named_after_update(
    members: Seq<CliMemberView>,
    i: int,
    node: CliNodeView,
    name: Seq<char>,
)
    requires
        0 <= i < members.len(),
    ensures
        first_named(members.update(i, CliMemberView { name: members[i].name, node }), name)
            == first_named(members, name),
{
    lemma_first_named_from_after_update(members, i, node, name, 0);
}

proof fn lemma_first_named_from_after_update(
    members: Seq<CliMemberView>,
    i: int,
    node: CliNodeView,
    name: Seq<char>,
    at: int,
)
    requires
        0 <= i < members.len(),
        0 <= at,
    ensures
        first_named_from(members.update(i, CliMemberView { name: members[i].name, node }), name, at)
            == first_named_from(members, name, at),
    decreases members.len() - at,
{
    if at < members.len() {
        lemma_first_named_from_after_update(members, i, node, name, at + 1);
    }
}

/// Puts a value into the configuration at the place that a composite key
/// names: the parts of the key between each `__` and the next are the path
/// to it.
pub fn insert_composite_value(key: &str, value: CliValue, members: Vec<CliMember>) -> (changed: Result<
    Vec<CliMember>,
    PathError,
>)
    ensures
        result_view(changed) == inserted(members_view(members@), key_path(key@), value@),
{
    let path = split_composite_key(key);
    assert(texts(path@).skip(0) == texts(path@));
    insert_at(members, &path, 0, value)
}

} // verus!
