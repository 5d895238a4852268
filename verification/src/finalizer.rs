//! Finalizers: which patches add and remove ours, and what the patches do.
//!
//! A finalizer is an entry in the metadata of an object that keeps the API
//! server from deleting the object. Every controller that has work to do
//! before an object goes away adds its own entry, and removes it once that
//! work is done.

use crate::lease::text;
use vstd::prelude::*;
use vstd::string::StringExecFns;

verus! {

/// The characters of each of these strings.
pub open spec fn texts(strings: Seq<String>) -> Seq<Seq<char>> {
    Seq::new(strings.len(), |i: int| strings[i]@)
}

/// What a reconciliation reads of an object's metadata.
#[derive(Debug)]
pub struct ObjectMeta {
    /// The name of the object, if it has one.
    pub name: Option<String>,
    /// The finalizers of the object.
    pub finalizers: Vec<String>,
    /// Whether the object has a deletion timestamp.
    pub deleting: bool,
}

/// The mathematical value of an [`ObjectMeta`].
pub struct ObjectMetaView {
    pub name: Option<Seq<char>>,
    pub finalizers: Seq<Seq<char>>,
    pub deleting: bool,
}

impl View for ObjectMeta {
    type V = ObjectMetaView;

    open spec fn view(&self) -> ObjectMetaView {
        ObjectMetaView {
            name: text(self.name),
            finalizers: texts(self.finalizers@),
            deleting: self.deleting,
        }
    }
}

/// A place in the finalizers of an object.
#[derive(Clone, Copy, Debug, PartialEq, Eq, Structural)]
pub enum FinalizerPath {
    /// The whole list.
    List,
    /// Behind the last entry of the list.
    End,
    /// The entry with this index.
    At(usize),
}

/// The text of a decimal digit.
pub open spec fn digit(d: nat) -> Seq<char> {
    if d == 0 {
        "0"@
    } else if d == 1 {
        "1"@
    } else if d == 2 {
        "2"@
    } else if d == 3 {
        "3"@
    } else if d == 4 {
        "4"@
    } else if d == 5 {
        "5"@
    } else if d == 6 {
        "6"@
    } else if d == 7 {
        "7"@
    } else if d == 8 {
        "8"@
    } else {
        "9"@
    }
}

/// A number in decimal, without leading zeros.
pub open spec fn decimal(n: nat) -> Seq<char>
    decreases n,
{
    if n < 10 {
        digit(n)
    } else {
        decimal(n / 10) + digit(n % 10)
    }
}

/// The text of a decimal digit.
fn digit_text(d: usize) -> (text: &'static str)
    requires
        d < 10,
    ensures
        text@ == digit(d as nat),
{
    match d {
        0 => "0",
        1 => "1",
        2 => "2",
        3 => "3",
        4 => "4",
        5 => "5",
        6 => "6",
        7 => "7",
        8 => "8",
        _ => "9",
    }
}

/// A number in decimal, without leading zeros.
fn decimal_text(n: usize) -> (text: String)
    ensures
        text@ == decimal(n as nat),
    decreases n,
{
    if n < 10 {
        digit_text(n).to_owned()
    } else {
        let mut text: String = decimal_text(n / 10);
        text.append(digit_text(n % 10));
        text
    }
}

impl FinalizerPath {
    /// The place as a JSON pointer into the object.
    pub open spec fn json_pointer(self) -> Seq<char> {
        match self {
            FinalizerPath::List => "/metadata/finalizers"@,
            FinalizerPath::End => "/metadata/finalizers/-"@,
            FinalizerPath::At(i) => "/metadata/finalizers/"@ + decimal(i as nat),
        }
    }

    /// The place as a JSON pointer into the object.
    pub fn pointer(&self) -> (pointer: String)
        ensures
            pointer@ == self.json_pointer(),
    {
        match self {
            FinalizerPath::List => "/metadata/finalizers".to_owned(),
            FinalizerPath::End => "/metadata/finalizers/-".to_owned(),
            FinalizerPath::At(i) => {
                let mut pointer: String = "/metadata/finalizers/".to_owned();
                let index: String = decimal_text(*i);
                pointer.append(index.as_str());
                pointer
            },
        }
    }
}

/// A value that a patch speaks of.
#[derive(Debug)]
pub enum PatchValue {
    /// Nothing: what an absent list is.
    Null,
    /// One finalizer.
    Text(String),
    /// A list of finalizers.
    List(Vec<String>),
}

/// The mathematical value of a [`PatchValue`].
pub enum PatchValueView {
    Null,
    Text(Seq<char>),
    List(Seq<Seq<char>>),
}

impl View for PatchValue {
    type V = PatchValueView;

    open spec fn view(&self) -> PatchValueView {
        match *self {
            PatchValue::Null => PatchValueView::Null,
            PatchValue::Text(text) => PatchValueView::Text(text@),
            PatchValue::List(list) => PatchValueView::List(texts(list@)),
        }
    }
}

/// One operation of a JSON patch.
#[derive(Debug)]
pub enum PatchOperation {
    /// Refuse the whole patch unless this value stands there.
    Test { path: FinalizerPath, value: PatchValue },
    /// Put this value there.
    Add { path: FinalizerPath, value: PatchValue },
    /// Remove the value that stands there.
    Remove { path: FinalizerPath },
}

/// The mathematical value of a [`PatchOperation`].
pub enum PatchOperationView {
    Test { path: FinalizerPath, value: PatchValueView },
    Add { path: FinalizerPath, value: PatchValueView },
    Remove { path: FinalizerPath },
}

impl View for PatchOperation {
    type V = PatchOperationView;

    open spec fn view(&self) -> PatchOperationView {
        match *self {
            PatchOperation::Test { path, value } => PatchOperationView::Test { path, value: value@ },
            PatchOperation::Add { path, value } => PatchOperationView::Add { path, value: value@ },
            PatchOperation::Remove { path } => PatchOperationView::Remove { path },
        }
    }
}

/// The values of the operations of a patch.
pub open spec fn patch_view(patch: Seq<PatchOperation>) -> Seq<PatchOperationView> {
    Seq::new(patch.len(), |i: int| patch[i]@)
}

/// The patch that adds a finalizer to an object with these finalizers. It is
/// refused if they have changed in the meantime.
pub open spec fn addition(finalizers: Seq<Seq<char>>, name: Seq<char>) -> Seq<PatchOperationView> {
    if finalizers.len() == 0 {
        seq![
            PatchOperationView::Test { path: FinalizerPath::List, value: PatchValueView::Null },
            PatchOperationView::Add {
                path: FinalizerPath::List,
                value: PatchValueView::List(seq![name]),
            },
        ]
    } else {
        seq![
            PatchOperationView::Test {
                path: FinalizerPath::List,
                value: PatchValueView::List(finalizers),
            },
            PatchOperationView::Add {
                path: FinalizerPath::End,
                value: PatchValueView::Text(name),
            },
        ]
    }
}

/// The patch that removes the finalizer `name` at this index. It is refused if
/// another one stands there in the meantime.
pub open spec fn removal(index: usize, name: Seq<char>) -> Seq<PatchOperationView> {
    seq![
        PatchOperationView::Test {
            path: FinalizerPath::At(index),
            value: PatchValueView::Text(name),
        },
        PatchOperationView::Remove { path: FinalizerPath::At(index) },
    ]
}

/// Copies a list of strings.
fn copied(strings: &Vec<String>) -> (copy: Vec<String>)
    ensures
        texts(copy@) == texts(strings@),
{
    let mut copy: Vec<String> = Vec::new();
    let mut i: usize = 0;
    while i < strings.len()
        invariant
            i <= strings.len(),
            texts(copy@) =~= texts(strings@).take(i as int),
        decreases strings.len() - i,
    {
        let ghost before = texts(copy@);
        copy.push(strings[i].clone());
        assert(texts(copy@) =~= before.push(strings@[i as int]@));
        i = i + 1;
    }
    copy
}

/// Where a finalizer first occurs among others.
pub fn position(finalizers: &Vec<String>, name: &str) -> (index: Option<usize>)
    ensures
        index is Some <==> texts(finalizers@).index_of_first(name@) is Some,
        index is Some ==> index->0 == texts(finalizers@).index_of_first(name@)->0,
        index is Some ==> index->0 < finalizers.len(),
{
    let ghost list = texts(finalizers@);
    proof {
        list.index_of_first_ensures(name@);
    }
    let wanted: String = name.to_owned();
    let mut i: usize = 0;
    while i < finalizers.len()
        invariant
            i <= finalizers.len(),
            list == texts(finalizers@),
            wanted@ == name@,
            forall|j: int| 0 <= j < i ==> #[trigger] list[j] != name@,
        decreases finalizers.len() - i,
    {
        if finalizers[i] == wanted {
            proof {
                list.index_of_first_ensures(name@);
                assert(list[i as int] == name@);
            }
            return Some(i);
        }
        i = i + 1;
    }
    None
}

/// The patch that adds a finalizer to an object with these finalizers.
pub fn add_patch(finalizers: &Vec<String>, name: &str) -> (patch: Vec<PatchOperation>)
    ensures
        patch_view(patch@) == addition(texts(finalizers@), name@),
{
    let patch = if finalizers.len() == 0 {
        let mut list: Vec<String> = Vec::new();
        list.push(name.to_owned());
        assert(texts(list@) =~= seq![name@]);
        vec![
            PatchOperation::Test { path: FinalizerPath::List, value: PatchValue::Null },
            PatchOperation::Add { path: FinalizerPath::List, value: PatchValue::List(list) },
        ]
    } else {
        vec![
            // finalizers are not deduplicated, so fail and retry if anyone
            // else has added ours in the meantime
            PatchOperation::Test {
                path: FinalizerPath::List,
                value: PatchValue::List(copied(finalizers)),
            },
            PatchOperation::Add {
                path: FinalizerPath::End,
                value: PatchValue::Text(name.to_owned()),
            },
        ]
    };
    assert(patch_view(patch@) =~= addition(texts(finalizers@), name@));
    patch
}

/// The patch that removes the finalizer `name` at this index.
pub fn remove_patch(index: usize, name: &str) -> (patch: Vec<PatchOperation>)
    ensures
        patch_view(patch@) == removal(index, name@),
{
    let patch = vec![
        // finalizers run concurrently, so fail rather than remove someone
        // else's
        PatchOperation::Test {
            path: FinalizerPath::At(index),
            value: PatchValue::Text(name.to_owned()),
        },
        PatchOperation::Remove { path: FinalizerPath::At(index) },
    ];
    assert(patch_view(patch@) =~= removal(index, name@));
    patch
}

/// What an operation makes of the finalizers of an object, or `None` if it is
/// refused. An object without finalizers has no list of them.
pub open spec fn operated(
    finalizers: Seq<Seq<char>>,
    operation: PatchOperationView,
) -> Option<Seq<Seq<char>>> {
    match operation {
        PatchOperationView::Test { path: FinalizerPath::List, value: PatchValueView::Null } => {
            if finalizers.len() == 0 {
                Some(finalizers)
            } else {
                None
            }
        },
        PatchOperationView::Test { path: FinalizerPath::List, value: PatchValueView::List(list) } => {
            if finalizers.len() > 0 && finalizers == list {
                Some(finalizers)
            } else {
                None
            }
        },
        PatchOperationView::Test { path: FinalizerPath::At(i), value: PatchValueView::Text(name) } => {
            if i < finalizers.len() && finalizers[i as int] == name {
                Some(finalizers)
            } else {
                None
            }
        },
        PatchOperationView::Add { path: FinalizerPath::List, value: PatchValueView::List(list) } => {
            Some(list)
        },
        PatchOperationView::Add { path: FinalizerPath::End, value: PatchValueView::Text(name) } => {
            if finalizers.len() > 0 {
                Some(finalizers.push(name))
            } else {
                None
            }
        },
        PatchOperationView::Remove { path: FinalizerPath::At(i) } => {
            if i < finalizers.len() {
                Some(finalizers.remove(i as int))
            } else {
                None
            }
        },
        _ => None,
    }
}

/// What a patch makes of the finalizers of an object, or `None` if it is
/// refused.
pub open spec fn patched(
    finalizers: Seq<Seq<char>>,
    patch: Seq<PatchOperationView>,
) -> Option<Seq<Seq<char>>>
    decreases patch.len(),
{
    if patch.len() == 0 {
        Some(finalizers)
    } else {
        match patched(finalizers, patch.drop_last()) {
            Some(finalizers) => operated(finalizers, patch.last()),
            None => None,
        }
    }
}

/// A patch of two operations does one after the other.
pub(crate) proof fn lemma_patch_of_two(
    finalizers: Seq<Seq<char>>,
    first: PatchOperationView,
    second: PatchOperationView,
)
    ensures
        patched(finalizers, seq![first, second]) == match operated(finalizers, first) {
            Some(finalizers) => operated(finalizers, second),
            None => None,
        },
{
    let patch = seq![first, second];
    assert(patch.drop_last() =~= seq![first]);
    assert(seq![first].drop_last() =~= Seq::<PatchOperationView>::empty());
    assert(patched(finalizers, Seq::<PatchOperationView>::empty()) == Some(finalizers));
    assert(patched(finalizers, seq![first]) == operated(finalizers, first));
}

/// Adding our finalizer appends it behind those that the object already has,
/// without disturbing them. If the finalizers have changed since they were
/// read, nothing happens.
pub proof fn law_addition_appends(
    read: Seq<Seq<char>>,
    current: Seq<Seq<char>>,
    name: Seq<char>,
)
    ensures
        current == read ==> patched(current, addition(read, name)) == Some(read.push(name)),
        current != read ==> patched(current, addition(read, name)) is None,
{
    let patch = addition(read, name);
    lemma_patch_of_two(current, patch[0], patch[1]);
    assert(patch =~= seq![patch[0], patch[1]]);
    if read.len() == 0 {
        if current.len() == 0 {
            assert(current =~= read);
        }
        assert(read.push(name) =~= seq![name]);
    }
}

/// Removing our finalizer takes out its first occurrence and leaves the other
/// finalizers alone. If another finalizer has taken its place since the
/// finalizers were read, nothing happens.
pub proof fn law_removal_takes_out_only_ours(
    read: Seq<Seq<char>>,
    current: Seq<Seq<char>>,
    index: usize,
    name: Seq<char>,
)
    requires
        read.index_of_first(name) == Some(index as int),
    ensures
        current == read ==> patched(current, removal(index, name)) == Some(read.remove_value(name)),
        current.len() <= index || current[index as int] != name ==> patched(
            current,
            removal(index, name),
        ) is None,
        patched(current, removal(index, name)) matches Some(after) ==> {
            &&& index < current.len()
            &&& current[index as int] == name
            &&& after == current.remove(index as int)
        },
{
    let patch = removal(index, name);
    lemma_patch_of_two(current, patch[0], patch[1]);
    assert(patch =~= seq![patch[0], patch[1]]);
    read.index_of_first_ensures(name);
}

/// Once our finalizer is removed from a list that holds it once, the list does
/// not hold it any more, and holds every other finalizer in the same order.
pub proof fn law_removed_finalizer_is_gone(finalizers: Seq<Seq<char>>, name: Seq<char>)
    requires
        finalizers.no_duplicates(),
        finalizers.contains(name),
    ensures
        !finalizers.remove_value(name).contains(name),
        forall|other: Seq<char>|
            other != name ==> (#[trigger] finalizers.contains(other)
                <==> finalizers.remove_value(name).contains(other)),
        forall|i: int, j: int|
            0 <= i < j < finalizers.remove_value(name).len() ==> finalizers.index_of(
                #[trigger] finalizers.remove_value(name)[i],
            ) < finalizers.index_of(#[trigger] finalizers.remove_value(name)[j]),
{
    finalizers.index_of_first_ensures(name);
    let k = finalizers.index_of_first(name)->0;
    let after = finalizers.remove_value(name);
    assert(after == finalizers.remove(k));
    assert forall|i: int| 0 <= i < after.len() implies #[trigger] after[i] == finalizers[if i < k {
        i
    } else {
        i + 1
    }] by {}
    assert forall|other: Seq<char>| other != name implies (#[trigger] finalizers.contains(other)
        <==> after.contains(other)) by {
        if finalizers.contains(other) {
            let i = choose|i: int| 0 <= i < finalizers.len() && finalizers[i] == other;
            assert(after[if i < k {
                i
            } else {
                i - 1
            }] == other);
        }
    }
    assert forall|i: int, j: int| 0 <= i < j < after.len() implies finalizers.index_of(
        #[trigger] after[i],
    ) < finalizers.index_of(#[trigger] after[j]) by {
        let a = if i < k {
            i
        } else {
            i + 1
        };
        let b = if j < k {
            j
        } else {
            j + 1
        };
        assert(finalizers[a] == after[i]);
        assert(finalizers[b] == after[j]);
    }
}

/// The number that a text of decimal digits stands for.
pub open spec fn read_back(text: Seq<char>) -> nat
    decreases text.len(),
{
    if text.len() == 0 {
        0
    } else {
        read_back(text.drop_last()) * 10 + (text.last() as nat - '0' as nat) as nat
    }
}

/// Each digit is the character that stands for it.
proof fn lemma_digit(d: nat)
    requires
        d < 10,
    ensures
        digit(d).len() == 1,
        digit(d)[0] as nat == '0' as nat + d,
{
    reveal_strlit("0");
    reveal_strlit("1");
    reveal_strlit("2");
    reveal_strlit("3");
    reveal_strlit("4");
    reveal_strlit("5");
    reveal_strlit("6");
    reveal_strlit("7");
    reveal_strlit("8");
    reveal_strlit("9");
}

/// The decimal text of a number consists of digits, does not start with a zero
/// unless it is one, and reads back as the number.
pub proof fn law_decimal_reads_back(n: nat)
    ensures
        decimal(n).len() > 0,
        forall|i: int|
            0 <= i < decimal(n).len() ==> '0' as nat <= (#[trigger] decimal(n)[i]) as nat
                <= '9' as nat,
        decimal(n)[0] == '0' ==> n == 0,
        read_back(decimal(n)) == n,
    decreases n,
{
    if n < 10 {
        lemma_digit(n);
        assert(decimal(n).drop_last() =~= Seq::<char>::empty());
        assert(read_back(Seq::<char>::empty()) == 0);
    } else {
        law_decimal_reads_back(n / 10);
        lemma_digit(n % 10);
        assert(decimal(n).drop_last() =~= decimal(n / 10));
        assert(decimal(n).last() == digit(n % 10)[0]);
        assert forall|i: int| 0 <= i < decimal(n).len() implies '0' as nat <= (
        #[trigger] decimal(n)[i]) as nat <= '9' as nat by {
            if i < decimal(n / 10).len() {
                assert(decimal(n)[i] == decimal(n / 10)[i]);
            } else {
                assert(decimal(n)[i] == digit(n % 10)[0]);
            }
        }
    }
}

/// Different places have different pointers: a patch that speaks of one entry
/// speaks of no other.
pub proof fn law_pointers_tell_entries_apart(i: usize, j: usize)
    requires
        FinalizerPath::At(i).json_pointer() == FinalizerPath::At(j).json_pointer(),
    ensures
        i == j,
{
    let list = "/metadata/finalizers/"@;
    law_decimal_reads_back(i as nat);
    law_decimal_reads_back(j as nat);
    let n = list.len() as int;
    let a = FinalizerPath::At(i).json_pointer();
    let b = FinalizerPath::At(j).json_pointer();
    assert(a.skip(n) =~= decimal(i as nat));
    assert(b.skip(n) =~= decimal(j as nat));
}

/// The patches that are made do what they are for, whatever finalizers the
/// object has by the time that they arrive.
pub proof fn law_patches_do_what_they_are_for(
    finalizers: Vec<String>,
    name: &str,
    index: usize,
    added: Vec<PatchOperation>,
    removed: Vec<PatchOperation>,
    current: Seq<Seq<char>>,
)
    requires
        call_ensures(add_patch, (&finalizers, name), added),
        call_ensures(remove_patch, (index, name), removed),
    ensures
        patched(current, patch_view(added@)) == if current == texts(finalizers@) {
            Some(current.push(name@))
        } else {
            None
        },
        patched(current, patch_view(removed@)) == if index < current.len() && current[index as int]
            == name@ {
            Some(current.remove(index as int))
        } else {
            None
        },
{
    law_addition_appends(texts(finalizers@), current, name@);
    let patch = removal(index, name@);
    lemma_patch_of_two(current, patch[0], patch[1]);
    assert(patch =~= seq![patch[0], patch[1]]);
}

/// The pointer to an entry leads into the list and ends with the index of the
/// entry.
pub proof fn law_pointer_ends_with_the_index(
    i: usize,
    list: String,
    end: String,
    entry: String,
)
    requires
        call_ensures(FinalizerPath::pointer, (&FinalizerPath::List,), list),
        call_ensures(FinalizerPath::pointer, (&FinalizerPath::End,), end),
        call_ensures(FinalizerPath::pointer, (&FinalizerPath::At(i),), entry),
    ensures
        list@ == "/metadata/finalizers"@,
        end@ == list@ + "/-"@,
        entry@.len() > list@.len() + 1,
        entry@.take(list@.len() as int + 1) == list@ + "/"@,
        read_back(entry@.skip(list@.len() as int + 1)) == i,
{
    reveal_strlit("/metadata/finalizers");
    reveal_strlit("/metadata/finalizers/-");
    reveal_strlit("/metadata/finalizers/");
    reveal_strlit("/-");
    reveal_strlit("/");
    law_decimal_reads_back(i as nat);
    assert(end@ =~= list@ + "/-"@);
    assert("/metadata/finalizers/"@ =~= list@ + "/"@);
    assert(entry@.take(list@.len() as int + 1) =~= list@ + "/"@);
    assert(entry@.skip(list@.len() as int + 1) =~= decimal(i as nat));
}

} // verus!
