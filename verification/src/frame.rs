use vstd::prelude::*;
use vstd::string::StringExecFns;
use crate::text::text_views;

verus! {

/// One member of a JSON object: its key as it is, and its value as JSON text.
#[derive(Debug)]
pub struct Member {
    pub key: String,
    pub value: String,
}

impl View for Member {
    type V = (Seq<char>, Seq<char>);

    open spec fn view(&self) -> (Seq<char>, Seq<char>) {
        (self.key@, self.value@)
    }
}

/// The views of a sequence of members.
pub open spec fn member_views(v: Seq<Member>) -> Seq<(Seq<char>, Seq<char>)> {
    v.map_values(|m: Member| m@)
}

/// The items of an array, with a comma between neighbours.
pub open spec fn items_text(items: Seq<Seq<char>>) -> Seq<char>
    decreases items.len(),
{
    if items.len() == 0 {
        Seq::empty()
    } else if items.len() == 1 {
        items[0]
    } else {
        items_text(items.drop_last()) + seq![','] + items.last()
    }
}

/// The text of the array that holds the given items, each already JSON text.
pub open spec fn array_text(items: Seq<Seq<char>>) -> Seq<char> {
    seq!['['] + items_text(items) + seq![']']
}

/// The text of one member: the key between quotes, a colon, the value.
pub open spec fn member_text(m: (Seq<char>, Seq<char>)) -> Seq<char> {
    seq!['"'] + m.0 + seq!['"', ':'] + m.1
}

/// The members of an object, with a comma between neighbours.
pub open spec fn members_text(members: Seq<(Seq<char>, Seq<char>)>) -> Seq<char>
    decreases members.len(),
{
    if members.len() == 0 {
        Seq::empty()
    } else if members.len() == 1 {
        member_text(members[0])
    } else {
        members_text(members.drop_last()) + seq![','] + member_text(members.last())
    }
}

/// The text of the object that holds the given members in their order.
pub open spec fn object_text(members: Seq<(Seq<char>, Seq<char>)>) -> Seq<char> {
    seq!['{'] + members_text(members) + seq!['}']
}

/// The members of an object under construction after one more field was
/// looked at. A field that is unset (`None`) adds nothing; one whose value
/// could not be encoded (`Some(None)`) spoils the object; any other adds a
/// member at the end.
pub open spec fn put(
    acc: Option<Seq<(Seq<char>, Seq<char>)>>,
    key: Seq<char>,
    value: Option<Option<Seq<char>>>,
) -> Option<Seq<(Seq<char>, Seq<char>)>> {
    match value {
        None => acc,
        Some(None) => None,
        Some(Some(text)) => match acc {
            Some(members) => Some(members.push((key, text))),
            None => None,
        },
    }
}

/// The object made of the given members, where all of them could be encoded.
pub open spec fn object_of(members: Option<Seq<(Seq<char>, Seq<char>)>>) -> Option<Seq<char>> {
    match members {
        Some(ms) => Some(object_text(ms)),
        None => None,
    }
}

/// The encoded items, where each of them could be encoded.
pub open spec fn collect(items: Seq<Option<Seq<char>>>) -> Option<Seq<Seq<char>>>
    decreases items.len(),
{
    if items.len() == 0 {
        Some(Seq::empty())
    } else {
        match (collect(items.drop_last()), items.last()) {
            (Some(front), Some(text)) => Some(front.push(text)),
            _ => None,
        }
    }
}

/// The array made of the given items, where all of them could be encoded.
pub open spec fn array_of(items: Seq<Option<Seq<char>>>) -> Option<Seq<char>> {
    match collect(items) {
        Some(texts) => Some(array_text(texts)),
        None => None,
    }
}

/// Where a front part of the items cannot be encoded, the whole cannot.
pub proof fn lemma_collect_front(items: Seq<Option<Seq<char>>>, k: int)
    requires
        0 <= k <= items.len(),
        collect(items.take(k)).is_none(),
    ensures
        collect(items).is_none(),
    decreases items.len() - k,
{
    if k < items.len() {
        assert(items.take(k + 1).drop_last() =~= items.take(k));
        lemma_collect_front(items, k + 1);
    } else {
        assert(items.take(k) =~= items);
    }
}

/// What one more item adds to the encoded front part.
pub proof fn lemma_collect_step(items: Seq<Option<Seq<char>>>, k: int)
    requires
        0 <= k < items.len(),
    ensures
        collect(items.take(k + 1)) == match (collect(items.take(k)), items[k]) {
            (Some(front), Some(text)) => Some(front.push(text)),
            _ => None,
        },
{
    assert(items.take(k + 1).drop_last() =~= items.take(k));
}

/// Writes the array that holds the given items, each already JSON text.
pub fn frame_array(items: &Vec<String>) -> (res: String)
    ensures
        res@ == array_text(text_views(items@)),
{
    let ghost texts = text_views(items@);
    let mut out = String::from_str("[");
    proof {
        reveal_strlit("[");
        reveal_strlit("]");
        reveal_strlit(",");
        assert(out@ =~= seq!['['] + items_text(texts.take(0)));
    }
    let mut i: usize = 0;
    while i < items.len()
        invariant
            0 <= i <= items@.len(),
            texts == text_views(items@),
            ","@ == seq![','],
            out@ == seq!['['] + items_text(texts.take(i as int)),
        decreases items@.len() - i,
    {
        if i > 0 {
            out.append(",");
        }
        out.append(items[i].as_str());
        proof {
            let next = texts.take(i + 1);
            assert(next.drop_last() =~= texts.take(i as int));
            assert(next.last() == items@[i as int]@);
            assert(out@ =~= seq!['['] + items_text(next));
        }
        i = i + 1;
    }
    out.append("]");
    proof {
        assert(texts.take(i as int) =~= texts);
    }
    out
}

/// Writes the object that holds the given members in their order. A key is
/// written between quotes as it is.
pub fn frame_object(members: &Vec<Member>) -> (res: String)
    ensures
        res@ == object_text(member_views(members@)),
{
    let ghost views = member_views(members@);
    let mut out = String::from_str("{");
    proof {
        reveal_strlit("{");
        reveal_strlit("}");
        reveal_strlit(",");
        reveal_strlit("\"");
        reveal_strlit("\":");
        assert(out@ =~= seq!['{'] + members_text(views.take(0)));
    }
    let mut i: usize = 0;
    while i < members.len()
        invariant
            0 <= i <= members@.len(),
            views == member_views(members@),
            ","@ == seq![','],
            "\""@ == seq!['"'],
            "\":"@ == seq!['"', ':'],
            out@ == seq!['{'] + members_text(views.take(i as int)),
        decreases members@.len() - i,
    {
        if i > 0 {
            out.append(",");
        }
        out.append("\"");
        out.append(members[i].key.as_str());
        out.append("\":");
        out.append(members[i].value.as_str());
        proof {
            let next = views.take(i + 1);
            assert(next.drop_last() =~= views.take(i as int));
            assert(next.last() == members@[i as int]@);
            assert(out@ =~= seq!['{'] + members_text(next));
        }
        i = i + 1;
    }
    out.append("}");
    proof {
        assert(views.take(i as int) =~= views);
    }
    out
}

} // verus!
