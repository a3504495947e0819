//! The externally loaded channel data the coordinators read: the name-sorted
//! channel list, addressed by index, and the logical-channel-number to name
//! mapping used by numeric channel entry.

use vstd::prelude::*;

verus! {

/// Index of the first occurrence of `name` in `names`, scanning from the
/// front; `None` when it does not occur.
pub open spec fn spec_first_index_of(names: Seq<Seq<char>>, name: Seq<char>) -> Option<int>
    decreases names.len(),
{
    if names.len() == 0 {
        None
    } else if names[0] == name {
        Some(0int)
    } else {
        match spec_first_index_of(names.drop_first(), name) {
            Some(i) => Some(i + 1),
            None => None,
        }
    }
}

pub proof fn lemma_first_index_of_found(names: Seq<Seq<char>>, name: Seq<char>, i: int)
    requires
        0 <= i < names.len(),
        names[i] == name,
        forall|j: int| 0 <= j < i ==> names[j] != name,
    ensures
        spec_first_index_of(names, name) == Some(i),
    decreases i,
{
    if i > 0 {
        assert(names[0] != name);
        assert forall|j: int| 0 <= j < i - 1 implies names.drop_first()[j] != name by {
            assert(names.drop_first()[j] == names[j + 1]);
        }
        assert(names.drop_first()[i - 1] == names[i]);
        lemma_first_index_of_found(names.drop_first(), name, i - 1);
    }
}

pub proof fn lemma_first_index_of_range(names: Seq<Seq<char>>, name: Seq<char>)
    ensures
        spec_first_index_of(names, name) matches Some(i) ==> 0 <= i < names.len() && names[i]
            == name,
    decreases names.len(),
{
    if names.len() > 0 && names[0] != name {
        lemma_first_index_of_range(names.drop_first(), name);
        if spec_first_index_of(names.drop_first(), name) is Some {
            let j = spec_first_index_of(names.drop_first(), name)->Some_0;
            assert(names.drop_first()[j] == names[j + 1]);
        }
    }
}

pub proof fn lemma_first_index_of_absent(names: Seq<Seq<char>>, name: Seq<char>)
    requires
        forall|j: int| 0 <= j < names.len() ==> names[j] != name,
    ensures
        spec_first_index_of(names, name) is None,
    decreases names.len(),
{
    if names.len() > 0 {
        assert forall|j: int| 0 <= j < names.drop_first().len() implies names.drop_first()[j]
            != name by {
            assert(names.drop_first()[j] == names[j + 1]);
        }
        lemma_first_index_of_absent(names.drop_first(), name);
    }
}

/// The ordered, name-sorted channel list, owned by the control surface and
/// read-only to every coordinator. A selector index is a position in it.
pub struct ChannelList {
    pub names: Vec<String>,
}

impl View for ChannelList {
    type V = Seq<Seq<char>>;

    open spec fn view(&self) -> Seq<Seq<char>> {
        self.names@.map_values(|s: String| s@)
    }
}

impl ChannelList {
    /// Selector indices are 32-bit, so the list must fit them.
    pub open spec fn wf(self) -> bool {
        self@.len() <= u32::MAX
    }

    pub fn from_names(names: Vec<String>) -> (r: ChannelList)
        requires
            names@.len() <= u32::MAX,
        ensures
            r.wf(),
            r.names == names,
            r@.len() == names@.len(),
    {
        ChannelList { names }
    }

    pub fn count(&self) -> (r: u32)
        requires
            self.wf(),
        ensures
            r == self@.len(),
    {
        self.names.len() as u32
    }

    /// The display name at a valid index.
    pub fn name_at(&self, i: u32) -> (r: &String)
        requires
            (i as int) < self@.len(),
        ensures
            r@ == self@[i as int],
    {
        &self.names[i as usize]
    }

    /// Where `name` first occurs in the list, if at all.
    pub fn index_of_name(&self, name: &String) -> (r: Option<u32>)
        requires
            self.wf(),
        ensures
            match r {
                Some(i) => spec_first_index_of(self@, name@) == Some(i as int),
                None => spec_first_index_of(self@, name@) is None,
            },
    {
        let mut i: usize = 0;
        while i < self.names.len()
            invariant
                self.wf(),
                i <= self@.len(),
                forall|j: int| 0 <= j < i ==> self@[j] != name@,
            decreases self@.len() - i,
        {
            if self.names[i] == *name {
                proof {
                    assert(self@[i as int] == name@);
                    lemma_first_index_of_found(self@, name@, i as int);
                }
                return Some(i as u32);
            }
            i += 1;
        }
        proof {
            lemma_first_index_of_absent(self@, name@);
        }
        None
    }
}

/// The name bound to `number`, taking the first binding when the mapping
/// holds several; `None` when `number` is unbound.
pub open spec fn spec_name_for_number(entries: Seq<(u16, Seq<char>)>, number: u16) -> Option<
    Seq<char>,
>
    decreases entries.len(),
{
    if entries.len() == 0 {
        None
    } else if entries[0].0 == number {
        Some(entries[0].1)
    } else {
        spec_name_for_number(entries.drop_first(), number)
    }
}

pub proof fn lemma_name_for_number_found(entries: Seq<(u16, Seq<char>)>, number: u16, i: int)
    requires
        0 <= i < entries.len(),
        entries[i].0 == number,
        forall|j: int| 0 <= j < i ==> entries[j].0 != number,
    ensures
        spec_name_for_number(entries, number) == Some(entries[i].1),
    decreases i,
{
    if i > 0 {
        assert(entries[0].0 != number);
        assert forall|j: int| 0 <= j < i - 1 implies entries.drop_first()[j].0 != number by {
            assert(entries.drop_first()[j] == entries[j + 1]);
        }
        assert(entries.drop_first()[i - 1] == entries[i]);
        lemma_name_for_number_found(entries.drop_first(), number, i - 1);
    }
}

pub proof fn lemma_name_for_number_absent(entries: Seq<(u16, Seq<char>)>, number: u16)
    requires
        forall|j: int| 0 <= j < entries.len() ==> entries[j].0 != number,
    ensures
        spec_name_for_number(entries, number) is None,
    decreases entries.len(),
{
    if entries.len() > 0 {
        assert forall|j: int| 0 <= j < entries.drop_first().len() implies entries.drop_first()[j].0
            != number by {
            assert(entries.drop_first()[j] == entries[j + 1]);
        }
        lemma_name_for_number_absent(entries.drop_first(), number);
    }
}

/// The logical-channel-number to display-name mapping, populated by the
/// external channel-file parser.
pub struct LogicalChannelMap {
    pub entries: Vec<(u16, String)>,
}

impl View for LogicalChannelMap {
    type V = Seq<(u16, Seq<char>)>;

    open spec fn view(&self) -> Seq<(u16, Seq<char>)> {
        self.entries@.map_values(|p: (u16, String)| (p.0, p.1@))
    }
}

impl LogicalChannelMap {
    pub fn from_entries(entries: Vec<(u16, String)>) -> (r: LogicalChannelMap)
        ensures
            r.entries == entries,
            r@.len() == entries@.len(),
    {
        LogicalChannelMap { entries }
    }

    /// The display name bound to a logical channel number, if any.
    pub fn name_for_number(&self, number: u16) -> (r: Option<&String>)
        ensures
            match r {
                Some(name) => spec_name_for_number(self@, number) == Some(name@),
                None => spec_name_for_number(self@, number) is None,
            },
    {
        let mut i: usize = 0;
        while i < self.entries.len()
            invariant
                i <= self@.len(),
                forall|j: int| 0 <= j < i ==> self@[j].0 != number,
            decreases self@.len() - i,
        {
            if self.entries[i].0 == number {
                proof {
                    assert(self@[i as int].0 == number);
                    lemma_name_for_number_found(self@, number, i as int);
                }
                return Some(&self.entries[i].1);
            }
            i += 1;
        }
        proof {
            lemma_name_for_number_absent(self@, number);
        }
        None
    }
}

} // verus!
