use vstd::prelude::*;
use vstd::string::StringExecFns;
use crate::arguments::invalid_field;
use crate::json::{items_view, lemma_array_view, Json, JsonView};

verus! {

/// One replacement: the first passage that reads `old_text` becomes
/// `new_text`.
#[derive(Debug)]
pub struct EditOperation {
    pub old_text: String,
    pub new_text: String,
}

pub struct EditOperationView {
    pub old_text: Seq<char>,
    pub new_text: Seq<char>,
}

impl View for EditOperation {
    type V = EditOperationView;

    open spec fn view(&self) -> EditOperationView {
        EditOperationView { old_text: self.old_text@, new_text: self.new_text@ }
    }
}

/// The views of a list of replacements.
pub open spec fn edits_view(edits: Seq<EditOperation>) -> Seq<EditOperationView> {
    Seq::new(edits.len(), |i: int| edits[i]@)
}

/// The views of an optional list of replacements.
pub open spec fn optional_edits_view(edits: Option<Vec<EditOperation>>) -> Option<
    Seq<EditOperationView>,
> {
    match edits {
        Some(e) => Some(edits_view(e@)),
        None => None,
    }
}

/// The replacement that a JSON object holds under `oldText` and `newText`.
pub open spec fn edit_of(item: JsonView) -> Result<EditOperationView, Seq<char>> {
    match item.required_text("oldText"@) {
        Err(fault) => Err(fault),
        Ok(old_text) => match item.required_text("newText"@) {
            Err(fault) => Err(fault),
            Ok(new_text) => Ok(EditOperationView { old_text, new_text }),
        },
    }
}

/// The replacements that the items of an array hold, or the fault of the
/// first item that holds none.
pub open spec fn edits_of(items: Seq<JsonView>) -> Result<Seq<EditOperationView>, Seq<char>>
    decreases items.len(),
{
    if items.len() == 0 {
        Ok(Seq::empty())
    } else {
        match edits_of(items.drop_last()) {
            Err(fault) => Err(fault),
            Ok(front) => match edit_of(items.last()) {
                Err(fault) => Err(fault),
                Ok(edit) => Ok(front.push(edit)),
            },
        }
    }
}

/// The replacements that an optional argument holds.
pub open spec fn optional_edits(arguments: JsonView, key: Seq<char>) -> Result<
    Option<Seq<EditOperationView>>,
    Seq<char>,
> {
    match arguments.member(key) {
        Some(JsonView::Array(items)) => match edits_of(items) {
            Ok(edits) => Ok(Some(edits)),
            Err(fault) => Err(fault),
        },
        Some(JsonView::Null) => Ok(None),
        Some(_) => Err(invalid_field(key, "an array of edits"@)),
        None => Ok(None),
    }
}

/// The views of the replacements that were read, or the characters of the
/// fault.
pub open spec fn read_edits(read: Result<Option<Vec<EditOperation>>, String>) -> Result<
    Option<Seq<EditOperationView>>,
    Seq<char>,
> {
    match read {
        Ok(edits) => Ok(optional_edits_view(edits)),
        Err(fault) => Err(fault@),
    }
}

impl EditOperation {
    /// Reads one replacement from a JSON object.
    pub fn from_json(item: &Json) -> (edit: Result<EditOperation, String>)
        ensures
            match edit {
                Ok(e) => edit_of(item@) == Ok::<EditOperationView, Seq<char>>(e@),
                Err(fault) => edit_of(item@) == Err::<EditOperationView, Seq<char>>(fault@),
            },
    {
        let old_text = match item.required_text("oldText") {
            Ok(text) => text,
            Err(fault) => {
                return Err(fault);
            },
        };
        let new_text = match item.required_text("newText") {
            Ok(text) => text,
            Err(fault) => {
                return Err(fault);
            },
        };
        Ok(EditOperation { old_text, new_text })
    }

    /// Reads the replacements that an optional argument holds.
    pub fn read_optional(arguments: &Json, key: &str) -> (read: Result<
        Option<Vec<EditOperation>>,
        String,
    >)
        ensures
            read_edits(read) == optional_edits(arguments@, key@),
    {
        match arguments.get(key) {
            Some(Json::Array(items)) => {
                proof {
                    lemma_array_view(*items);
                }
                let mut edits: Vec<EditOperation> = Vec::new();
                let mut i: usize = 0;
                proof {
                    assert(items_view(items@).take(0).len() == 0);
                    assert(edits_view(edits@) =~= Seq::<EditOperationView>::empty());
                }
                while i < items.len()
                    invariant
                        i <= items.len(),
                        arguments@.member(key@) == Some(JsonView::Array(items_view(items@))),
                        edits_of(items_view(items@).take(i as int)) == Ok::<
                            Seq<EditOperationView>,
                            Seq<char>,
                        >(edits_view(edits@)),
                    decreases items.len() - i,
                {
                    let ghost front = items_view(items@).take(i as int);
                    let ghost longer = items_view(items@).take(i + 1);
                    assert(longer.drop_last() =~= front);
                    assert(longer.last() == items@[i as int]@);
                    match EditOperation::from_json(&items[i]) {
                        Ok(edit) => {
                            let ghost before = edits_view(edits@);
                            let ghost added = edit@;
                            edits.push(edit);
                            assert(edits_view(edits@) =~= before.push(added));
                        },
                        Err(fault) => {
                            proof {
                                assert(edits_of(longer) == Err::<Seq<EditOperationView>, Seq<char>>(
                                    fault@,
                                ));
                                lemma_fault_stays(items_view(items@), i + 1);
                            }
                            return Err(fault);
                        },
                    }
                    i = i + 1;
                }
                assert(items_view(items@).take(items@.len() as int) =~= items_view(items@));
                Ok(Some(edits))
            },
            Some(Json::Null) => Ok(None),
            Some(_) => Err(
                String::from_str("invalid type for field `").concat(key).concat(
                    "`, expected ",
                ).concat("an array of edits"),
            ),
            None => Ok(None),
        }
    }
}

/// A fault among the first items of an array is the fault of the whole
/// array.
proof fn lemma_fault_stays(items: Seq<JsonView>, count: int)
    requires
        0 <= count <= items.len(),
        edits_of(items.take(count)) is Err,
    ensures
        edits_of(items) == edits_of(items.take(count)),
    decreases items.len() - count,
{
    if count == items.len() {
        assert(items.take(count) =~= items);
    } else {
        let longer = items.take(count + 1);
        assert(longer.drop_last() =~= items.take(count));
        lemma_fault_stays(items, count + 1);
    }
}

} // verus!
