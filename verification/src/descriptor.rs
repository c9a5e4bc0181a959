//! The label of an interface, `name (alias)`, taken apart.

use vstd::prelude::*;
use vstd::string::*;

verus! {

/// The position of the first space of `s` from `i` on, or the length of `s`.
pub open spec fn space_from(s: Seq<char>, i: int) -> int
    decreases s.len() - i,
{
    if 0 <= i < s.len() && s[i] != ' ' {
        space_from(s, i + 1)
    } else if i < s.len() {
        i
    } else {
        s.len() as int
    }
}

/// Where the parenthesised group ends that is open `depth` levels deep at
/// `i`: the position of the `)` that closes its outermost level, or the length
/// of `s` where it is never closed.
pub open spec fn group_end(s: Seq<char>, i: int, depth: nat) -> int
    decreases s.len() - i,
{
    if !(0 <= i < s.len()) {
        s.len() as int
    } else if s[i] == '(' {
        group_end(s, i + 1, depth + 1)
    } else if s[i] == ')' {
        if depth <= 1 {
            i
        } else {
            group_end(s, i + 1, (depth - 1) as nat)
        }
    } else {
        group_end(s, i + 1, depth)
    }
}

/// The name in a label: what stands before the first space, or the whole label.
pub open spec fn label_name(s: Seq<char>) -> Seq<char> {
    s.subrange(0, space_from(s, 0))
}

/// What the group holds that opens right after the first space of a label;
/// empty where no group opens there.
pub open spec fn label_group(s: Seq<char>) -> Seq<char> {
    let open = space_from(s, 0) + 1;
    if open < s.len() && s[open] == '(' {
        s.subrange(open + 1, group_end(s, open + 1, 1))
    } else {
        Seq::empty()
    }
}

/// The alias in a label: what its group holds, nested parentheses included;
/// none where there is no group or the group is empty.
pub open spec fn label_alias(s: Seq<char>) -> Option<Seq<char>> {
    if label_group(s).len() == 0 {
        None
    } else {
        Some(label_group(s))
    }
}

proof fn space_from_bounds(s: Seq<char>, i: int)
    requires
        0 <= i <= s.len(),
    ensures
        i <= space_from(s, i) <= s.len(),
        forall|k: int| i <= k < space_from(s, i) ==> #[trigger] s[k] != ' ',
        space_from(s, i) < s.len() ==> s[space_from(s, i)] == ' ',
    decreases s.len() - i,
{
    if i < s.len() && s[i] != ' ' {
        space_from_bounds(s, i + 1);
    }
}

/// A label without a space is all name and has no alias.
pub proof fn label_without_space(s: Seq<char>)
    requires
        forall|i: int| 0 <= i < s.len() ==> #[trigger] s[i] != ' ',
    ensures
        label_name(s) == s,
        label_alias(s) is None,
{
    space_from_bounds(s, 0);
    assert(label_name(s) =~= s);
}

/// The name of a label holds no space and is followed by one, where the
/// label has one; and an alias is never empty.
pub proof fn label_parts(s: Seq<char>)
    ensures
        forall|i: int| 0 <= i < label_name(s).len() ==> #[trigger] label_name(s)[i] != ' ',
        label_name(s).len() < s.len() ==> s[label_name(s).len() as int] == ' ',
        label_alias(s) matches Some(alias) ==> alias.len() > 0,
{
    space_from_bounds(s, 0);
}

/// The name and the alias of an interface.
#[derive(Debug)]
pub struct InterfaceDescriptor {
    pub name: String,
    pub alias: Option<String>,
}

impl InterfaceDescriptor {
    /// Takes a label apart. Every label has a name; a label that is not of the
    /// form `name (alias)` has as much of an alias as can be made out.
    pub fn parse(label: &str) -> (r: InterfaceDescriptor)
        ensures
            r.name@ == label_name(label@),
            match r.alias {
                Some(a) => label_alias(label@) == Some(a@),
                None => label_alias(label@) is None,
            },
    {
        let len = label.unicode_len();
        let mut space: usize = 0;
        while space < len && label.get_char(space) != ' '
            invariant
                len == label@.len(),
                space <= len,
                space_from(label@, 0) == space_from(label@, space as int),
            decreases len - space,
        {
            space = space + 1;
        }
        let name = label.substring_char(0, space).to_owned();
        if len - space < 2 || label.get_char(space + 1) != '(' {
            return InterfaceDescriptor { name, alias: None };
        }
        let start: usize = space + 2;
        let mut end: usize = start;
        let mut depth: usize = 1;
        while end < len && depth > 0
            invariant
                len == label@.len(),
                2 <= start <= end <= len,
                depth <= 1 + end - start,
                depth > 0 ==> group_end(label@, start as int, 1) == group_end(
                    label@,
                    end as int,
                    depth as nat,
                ),
                depth == 0 ==> end > start && group_end(label@, start as int, 1) == end - 1,
            decreases len - end,
        {
            let c = label.get_char(end);
            if c == '(' {
                depth = depth + 1;
            } else if c == ')' {
                depth = depth - 1;
            }
            end = end + 1;
        }
        let close: usize = if depth == 0 {
            end - 1
        } else {
            end
        };
        if close == start {
            InterfaceDescriptor { name, alias: None }
        } else {
            InterfaceDescriptor { name, alias: Some(label.substring_char(start, close).to_owned()) }
        }
    }
}

} // verus!
