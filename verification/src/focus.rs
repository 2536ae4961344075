//! The focus stacking procedure of a compute node: the form it shows, which
//! recorded stack it works on, and the addresses and file names it uses.
use vstd::prelude::*;

use crate::text::{chars_of, push_chars, push_nat_text, push_padded_text, nat_text, padded_text,
    string_from_chars};
use crate::zscan::ZScanMetadata;

verus! {

/// The parameters of a focus stacking run.
#[derive(Debug)]
pub struct FocusStackingParams {
    /// The identifier of the stack to work on, if one was chosen.
    pub image_stack_selection: Option<String>,
}

/// Where an element stands in the form's grid.
#[derive(Debug, Clone, Copy, PartialEq, Eq, Structural)]
pub struct WidgetPosition {
    pub row: u32,
    pub column: u32,
    pub row_span: u32,
    pub column_span: u32,
}

/// An element of a procedure's form.
#[derive(Debug)]
pub enum Element {
    Image { display_name: String, href: String, positioning: WidgetPosition },
    Select {
        display_name: String,
        options: Vec<String>,
        value: String,
        positioning: WidgetPosition,
    },
}

/// The form of a procedure: its names, the number of grid columns, and its
/// elements by key.
#[derive(Debug)]
pub struct ProcedureUi {
    pub name: String,
    pub display_name: String,
    pub description: String,
    pub columns: u32,
    pub elements: Vec<(String, Element)>,
}

/// The focus stacking procedure.
#[derive(Debug)]
pub struct FocusStacking {}

/// The stack the form shows: the chosen one (even when the backend does not
/// list it), else the first listed one, else none.
pub open spec fn selected_stack(selection: Option<String>, stacks: Seq<String>) -> Option<
    Seq<char>,
> {
    match selection {
        Some(s) => Some(s@),
        None => if stacks.len() > 0 {
            Some(stacks[0]@)
        } else {
            None
        },
    }
}

/// The address of the thumbnail, 150 pixels wide, of the first frame of
/// stack `id`.
pub open spec fn thumbnail_href(host: Seq<char>, id: Seq<char>) -> Seq<char> {
    "http://"@ + host + "/api/z-scan/thumbnail/"@ + id + "/0/150"@
}

/// The stack whose result the output preview shows.
pub open spec fn output_stack_id() -> Seq<char> {
    "e4a5f501-0865-4b0b-9840-98744fce5d4e"@
}

/// The text of `s`, or empty text.
pub open spec fn text_or_empty(s: Option<Seq<char>>) -> Seq<char> {
    match s {
        Some(t) => t,
        None => Seq::empty(),
    }
}

fn concat3(a: &str, b: &str, c: &str) -> (s: String)
    ensures
        s@ == a@ + b@ + c@,
{
    let mut v = chars_of(a);
    let vb = chars_of(b);
    push_chars(&mut v, vb.as_slice());
    let vc = chars_of(c);
    push_chars(&mut v, vc.as_slice());
    string_from_chars(&v)
}

fn href_for(host: &str, id: &str) -> (s: String)
    ensures
        s@ == thumbnail_href(host@, id@),
{
    let mut v = chars_of("http://");
    let vh = chars_of(host);
    push_chars(&mut v, vh.as_slice());
    let vm = chars_of("/api/z-scan/thumbnail/");
    push_chars(&mut v, vm.as_slice());
    let vi = chars_of(id);
    push_chars(&mut v, vi.as_slice());
    let ve = chars_of("/0/150");
    push_chars(&mut v, ve.as_slice());
    proof {
        assert(v@ =~= thumbnail_href(host@, id@));
    }
    string_from_chars(&v)
}

/// The element stored under `key` is the image `name` showing `href` at `pos`.
pub open spec fn is_image(e: (String, Element), key: Seq<char>, name: Seq<char>, href: Seq<char>, pos: WidgetPosition) -> bool {
    &&& e.0@ == key
    &&& e.1 matches Element::Image { display_name, href: h, positioning }
        && display_name@ == name && h@ == href && positioning == pos
}

impl FocusStacking {
    pub fn _new() -> (f: FocusStacking) {
        FocusStacking {}
    }

    /// The form of the procedure on the compute node of backend `host_name`,
    /// given the stacks the backend lists (none when listing failed): a
    /// preview of the selected stack, a preview of the output, and the stack
    /// selector, on a grid of four columns.
    pub fn describe(host_name: &str, params: FocusStackingParams, image_stacks: Vec<String>) -> (ui:
        ProcedureUi)
        ensures
            ui.name@ == "focus_stacking"@,
            ui.display_name@ == "Focus Stacking"@,
            ui.description@
                == "Generates an image with extended depth of field by combining multiple images taken at different focus distances."@,
            ui.columns == 4,
            ui.elements@.len() == 3,
            is_image(
                ui.elements@[0],
                "stack_preview"@,
                "Stack Preview"@,
                match selected_stack(params.image_stack_selection, image_stacks@) {
                    Some(id) => thumbnail_href(host_name@, id),
                    None => Seq::empty(),
                },
                WidgetPosition { row: 1, column: 1, row_span: 1, column_span: 1 },
            ),
            is_image(
                ui.elements@[1],
                "output_preview"@,
                "Output Preview"@,
                thumbnail_href(host_name@, output_stack_id()),
                WidgetPosition { row: 1, column: 2, row_span: 1, column_span: 1 },
            ),
            ui.elements@[2].0@ == "image_stack"@,
            ui.elements@[2].1 matches Element::Select { display_name, options, value, positioning }
                && display_name@ == "Image stack"@ && options@.len() == 3 && options@[0]@ == "a"@
                && options@[1]@ == "b"@ && options@[2]@ == "c"@ && value@ == text_or_empty(
                selected_stack(params.image_stack_selection, image_stacks@),
            ) && positioning == (WidgetPosition { row: 1, column: 3, row_span: 1, column_span: 2 }),
    {
        let ghost selected = selected_stack(params.image_stack_selection, image_stacks@);
        let value: Option<String> = match params.image_stack_selection {
            Some(s) => Some(s),
            None => if image_stacks.len() > 0 {
                Some(image_stacks[0].clone())
            } else {
                None
            },
        };
        let href = match &value {
            Some(id) => href_for(host_name, id.as_str()),
            None => String::new(),
        };
        let output_href = href_for(host_name, "e4a5f501-0865-4b0b-9840-98744fce5d4e");
        let value_text = match value {
            Some(v) => v,
            None => String::new(),
        };
        let mut options: Vec<String> = Vec::new();
        options.push("a".to_owned());
        options.push("b".to_owned());
        options.push("c".to_owned());
        let mut elements: Vec<(String, Element)> = Vec::new();
        elements.push(
            (
                "stack_preview".to_owned(),
                Element::Image {
                    display_name: "Stack Preview".to_owned(),
                    href,
                    positioning: WidgetPosition { row: 1, column: 1, row_span: 1, column_span: 1 },
                },
            ),
        );
        elements.push(
            (
                "output_preview".to_owned(),
                Element::Image {
                    display_name: "Output Preview".to_owned(),
                    href: output_href,
                    positioning: WidgetPosition { row: 1, column: 2, row_span: 1, column_span: 1 },
                },
            ),
        );
        elements.push(
            (
                "image_stack".to_owned(),
                Element::Select {
                    display_name: "Image stack".to_owned(),
                    options,
                    value: value_text,
                    positioning: WidgetPosition { row: 1, column: 3, row_span: 1, column_span: 2 },
                },
            ),
        );
        ProcedureUi {
            name: "focus_stacking".to_owned(),
            display_name: "Focus Stacking".to_owned(),
            description: "Generates an image with extended depth of field by combining multiple images taken at different focus distances.".to_owned(),
            columns: 4,
            elements,
        }
    }
}

/// The address the compute node lists the recorded stacks at.
pub open spec fn list_url_text(host: Seq<char>) -> Seq<char> {
    "http://"@ + host + "/api/z-scan/list"@
}

/// The address the compute node lists the recorded stacks at.
pub fn z_scan_list_url(host_name: &str) -> (url: String)
    ensures
        url@ == list_url_text(host_name@),
{
    concat3("http://", host_name, "/api/z-scan/list")
}

/// The address of frame `i` of stack `id`.
pub open spec fn frame_url_text(host: Seq<char>, id: Seq<char>, i: nat) -> Seq<char> {
    "http://"@ + host + "/api/z-scan/frame/"@ + id + "/"@ + nat_text(i)
}

/// The address of frame `i` of stack `stack_id`.
pub fn frame_url(host_name: &str, stack_id: &str, i: usize) -> (url: String)
    ensures
        url@ == frame_url_text(host_name@, stack_id@, i as nat),
{
    let mut v = chars_of("http://");
    let vh = chars_of(host_name);
    push_chars(&mut v, vh.as_slice());
    let vm = chars_of("/api/z-scan/frame/");
    push_chars(&mut v, vm.as_slice());
    let vi = chars_of(stack_id);
    push_chars(&mut v, vi.as_slice());
    v.push('/');
    push_nat_text(&mut v, i as u64);
    proof {
        reveal_strlit("/");
        assert(v@ =~= frame_url_text(host_name@, stack_id@, i as nat));
    }
    string_from_chars(&v)
}

/// The name of the file of input image `index`: five digits and `ext`.
pub open spec fn image_file_text(index: nat, ext: Seq<char>) -> Seq<char> {
    padded_text(index, 5) + ext
}

/// The name of the file the raw input image `index` is kept in.
pub fn raw_image_name(index: usize) -> (name: String)
    ensures
        name@ == image_file_text(index as nat, ".png"@),
{
    let mut v: Vec<char> = Vec::new();
    push_padded_text(&mut v, index as u64, 5);
    let ext = chars_of(".png");
    push_chars(&mut v, ext.as_slice());
    string_from_chars(&v)
}

/// The name of the file the edge image of input `index` is kept in.
pub fn sobel_image_name(index: usize) -> (name: String)
    ensures
        name@ == image_file_text(index as nat, ".jpg"@),
{
    let mut v: Vec<char> = Vec::new();
    push_padded_text(&mut v, index as u64, 5);
    let ext = chars_of(".jpg");
    push_chars(&mut v, ext.as_slice());
    string_from_chars(&v)
}

/// The position of the first stack named `id`, if any.
pub open spec fn first_stack_with(stacks: Seq<ZScanMetadata>, id: Seq<char>) -> Option<int>
    decreases stacks.len(),
{
    if stacks.len() == 0 {
        None
    } else if stacks[0].uuid@ == id {
        Some(0)
    } else {
        match first_stack_with(stacks.drop_first(), id) {
            Some(j) => Some(j + 1),
            None => None,
        }
    }
}

/// `o` moved `k` places on.
pub open spec fn shifted(o: Option<int>, k: int) -> Option<int> {
    match o {
        Some(j) => Some(j + k),
        None => None,
    }
}

/// The message of a missing stack.
pub open spec fn missing_stack_text(id: Seq<char>) -> Seq<char> {
    "Stack with ID "@ + id + " not found"@
}

/// The metadata of the first listed stack named `stack_id`, or the message
/// that there is none.
pub fn find_stack(stacks: Vec<ZScanMetadata>, stack_id: &str) -> (r: Result<
    ZScanMetadata,
    String,
>)
    ensures
        match first_stack_with(stacks@, stack_id@) {
            Some(k) => r == Ok::<ZScanMetadata, String>(stacks@[k]),
            None => r matches Err(m) && m@ == missing_stack_text(stack_id@),
        },
{
    let ghost orig = stacks@;
    let n = stacks.len();
    let id = stack_id.to_owned();
    let mut pending = stacks;
    let mut k: usize = 0;
    while pending.len() > 0
        invariant
            k <= orig.len(),
            orig.len() == n,
            k + pending@.len() == orig.len(),
            stacks@ == orig,
            pending@ == orig.skip(k as int),
            id@ == stack_id@,
            first_stack_with(orig, stack_id@) == shifted(
                first_stack_with(pending@, stack_id@),
                k as int,
            ),
        decreases pending.len(),
    {
        let ghost rest = pending@;
        let s = pending.remove(0);
        proof {
            assert(s == orig[k as int]);
            assert(pending@ == rest.drop_first());
        }
        if s.uuid == id {
            proof {
                assert(rest[0] == s);
                assert(first_stack_with(rest, stack_id@) == Some(0int));
            }
            return Ok(s);
        }
        k = k + 1;
        proof {
            assert(pending@ =~= orig.skip(k as int));
        }
    }
    let mut v = chars_of("Stack with ID ");
    let vi = chars_of(stack_id);
    push_chars(&mut v, vi.as_slice());
    let ve = chars_of(" not found");
    push_chars(&mut v, ve.as_slice());
    Err(string_from_chars(&v))
}

} // verus!
