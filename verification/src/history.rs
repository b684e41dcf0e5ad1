//! The record that the backend keeps of a finished job.

use vstd::prelude::*;
use crate::error::ClientError;
use crate::json::{
    elements_of, json_document, json_elements, json_member, json_members, json_string_member,
    member, members_of, parse_document, string_member,
};

verus! {

/// One produced image, as the record lists it. Of what the backend says of an
/// image the client reads the file name only.
#[derive(Clone, Debug, PartialEq, Eq)]
pub struct ImageDescriptor {
    pub filename: String,
}

/// What one node of the job produced: the node's name, and its images in the
/// order of the record. A node that lists no images has none.
#[derive(Clone, Debug, PartialEq, Eq)]
pub struct NodeOutput {
    pub node: String,
    pub images: Vec<ImageDescriptor>,
}

/// What a [`NodeOutput`] holds, as plain values: the node's name and the file
/// names of its images.
pub struct NodeOutputView {
    pub node: Seq<char>,
    pub images: Seq<Seq<char>>,
}

/// The record of one job: what each of its nodes produced, in the order in
/// which the record hands the nodes out.
#[derive(Clone, Debug, PartialEq, Eq)]
pub struct HistoryRecord {
    pub outputs: Vec<NodeOutput>,
}

impl View for ImageDescriptor {
    type V = Seq<char>;

    open spec fn view(&self) -> Seq<char> {
        self.filename@
    }
}

impl View for NodeOutput {
    type V = NodeOutputView;

    open spec fn view(&self) -> NodeOutputView {
        NodeOutputView {
            node: self.node@,
            images: self.images@.map_values(|image: ImageDescriptor| image@),
        }
    }
}

impl View for HistoryRecord {
    type V = Seq<NodeOutputView>;

    open spec fn view(&self) -> Seq<NodeOutputView> {
        self.outputs@.map_values(|node: NodeOutput| node@)
    }
}

/// The file name that an image entry gives, where it gives one.
pub open spec fn image_filename(image: serde_json::Value) -> Option<Seq<char>> {
    json_string_member(image, "filename"@)
}

/// The image entries of a node, where its `images` member is a list.
pub open spec fn image_list(node: serde_json::Value) -> Option<Seq<serde_json::Value>> {
    match json_member(node, "images"@) {
        Some(list) => json_elements(list),
        None => None,
    }
}

/// The file names of a list of image entries, where each entry gives one.
pub open spec fn filenames_of_images(images: Seq<serde_json::Value>) -> Option<Seq<Seq<char>>> {
    if forall|i: int| 0 <= i < images.len() ==> (#[trigger] image_filename(images[i])) is Some {
        Some(Seq::new(images.len(), |i: int| image_filename(images[i])->0))
    } else {
        None
    }
}

/// The file names of what a node produced: those of its image list, and none
/// where it has no such list. It is `None` where an entry of the list gives
/// no file name.
pub open spec fn node_images(node: serde_json::Value) -> Option<Seq<Seq<char>>> {
    match image_list(node) {
        Some(images) => filenames_of_images(images),
        None => Some(Seq::empty()),
    }
}

/// What the nodes produced, each under its name, where [`node_images`] is
/// defined for each.
pub open spec fn outputs_of_nodes(nodes: Seq<(Seq<char>, serde_json::Value)>) -> Option<
    Seq<NodeOutputView>,
> {
    if forall|i: int| 0 <= i < nodes.len() ==> (#[trigger] node_images(nodes[i].1)) is Some {
        Some(
            Seq::new(
                nodes.len(),
                |i: int| NodeOutputView { node: nodes[i].0, images: node_images(nodes[i].1)->0 },
            ),
        )
    } else {
        None
    }
}

/// The record of the job `job_id` in a parsed history response: the response
/// holds a member named `job_id`, whose `outputs` is an object, and each
/// image that a node of it lists gives a file name.
pub open spec fn history_of_document(document: serde_json::Value, job_id: Seq<char>) -> Option<
    Seq<NodeOutputView>,
> {
    match json_member(document, job_id) {
        None => None,
        Some(record) => match json_member(record, "outputs"@) {
            None => None,
            Some(outputs) => match json_members(outputs) {
                None => None,
                Some(nodes) => outputs_of_nodes(nodes),
            },
        },
    }
}

/// The record of the job `job_id` in the text of a history response, where
/// the text is JSON and holds one.
pub open spec fn history_of_text(text: Seq<char>, job_id: Seq<char>) -> Option<
    Seq<NodeOutputView>,
> {
    match json_document(text) {
        Some(document) => history_of_document(document, job_id),
        None => None,
    }
}

/// The file names of a record, node after node, each node's in their order.
pub open spec fn all_filenames(outputs: Seq<NodeOutputView>) -> Seq<Seq<char>>
    decreases outputs.len(),
{
    if outputs.len() == 0 {
        Seq::empty()
    } else {
        all_filenames(outputs.drop_last()) + outputs.last().images
    }
}

/// Reads the images that one node produced.
fn decode_node_images(node: &serde_json::Value) -> (r: Option<Vec<ImageDescriptor>>)
    ensures
        r matches Some(images) ==> node_images(*node) == Some(
            images@.map_values(|image: ImageDescriptor| image@),
        ),
        r is None <==> node_images(*node) is None,
{
    let mut images: Vec<ImageDescriptor> = Vec::new();
    let list = match member(node, "images") {
        Some(list) => list,
        None => {
            assert(images@.map_values(|image: ImageDescriptor| image@) =~= Seq::empty());
            return Some(images);
        },
    };
    let entries = match elements_of(list) {
        Some(entries) => entries,
        None => {
            assert(images@.map_values(|image: ImageDescriptor| image@) =~= Seq::empty());
            return Some(images);
        },
    };
    let mut i: usize = 0;
    while i < entries.len()
        invariant
            i <= entries@.len(),
            images@.len() == i,
            image_list(*node) == Some(entries@),
            forall|k: int|
                0 <= k < i ==> #[trigger] image_filename(entries@[k]) == Some(images@[k].filename@),
        decreases entries@.len() - i,
    {
        match string_member(&entries[i], "filename") {
            Some(filename) => {
                images.push(ImageDescriptor { filename: filename.to_owned() });
            },
            None => {
                assert(image_filename(entries@[i as int]) is None);
                return None;
            },
        }
        i += 1;
    }
    assert(images@.map_values(|image: ImageDescriptor| image@) =~= filenames_of_images(
        entries@,
    )->0);
    Some(images)
}

/// Reads the record of the job `job_id` from the text of a history response.
///
/// The call fails with [`ClientError::Protocol`] where the text is not JSON,
/// where it holds no record of that job, where the record's `outputs` is
/// missing or is no object, and where an image that the record lists gives no
/// file name. A node whose `images` is missing or is no list is kept, with no
/// images, so that it adds nothing to what is fetched.
pub fn decode_history(text: &str, job_id: &str) -> (r: Result<HistoryRecord, ClientError>)
    ensures
        r matches Ok(record) ==> history_of_text(text@, job_id@) == Some(record@),
        r matches Err(e) ==> e == ClientError::Protocol && history_of_text(text@, job_id@) is None,
{
    let document = match parse_document(text) {
        Ok(document) => document,
        Err(_) => {
            return Err(ClientError::Protocol);
        },
    };
    let record = match member(&document, job_id) {
        Some(record) => record,
        None => {
            return Err(ClientError::Protocol);
        },
    };
    let outputs = match member(record, "outputs") {
        Some(outputs) => outputs,
        None => {
            return Err(ClientError::Protocol);
        },
    };
    let nodes = match members_of(outputs) {
        Some(nodes) => nodes,
        None => {
            return Err(ClientError::Protocol);
        },
    };
    let ghost values = nodes@.map_values(|item: (&str, &serde_json::Value)| (item.0@, *item.1));
    let mut decoded: Vec<NodeOutput> = Vec::new();
    let mut i: usize = 0;
    while i < nodes.len()
        invariant
            i <= nodes@.len(),
            values == nodes@.map_values(|item: (&str, &serde_json::Value)| (item.0@, *item.1)),
            history_of_text(text@, job_id@) == outputs_of_nodes(values),
            decoded@.len() == i,
            forall|k: int|
                0 <= k < i ==> #[trigger] node_images(values[k].1) == Some(decoded@[k]@.images)
                    && decoded@[k]@.node == values[k].0,
        decreases nodes@.len() - i,
    {
        let (name, node) = nodes[i];
        match decode_node_images(node) {
            Some(images) => {
                decoded.push(NodeOutput { node: name.to_owned(), images });
            },
            None => {
                assert(node_images(values[i as int].1) is None);
                return Err(ClientError::Protocol);
            },
        }
        i += 1;
    }
    let record = HistoryRecord { outputs: decoded };
    assert(record@ =~= outputs_of_nodes(values)->0);
    Ok(record)
}

impl HistoryRecord {
    /// The file names of all images of the record, node after node.
    pub fn filenames(&self) -> (r: Vec<String>)
        ensures
            r@.map_values(|name: String| name@) == all_filenames(self@),
    {
        let mut names: Vec<String> = Vec::new();
        let mut i: usize = 0;
        assert(self@.take(0) =~= Seq::empty());
        assert(names@.map_values(|name: String| name@) =~= Seq::empty());
        while i < self.outputs.len()
            invariant
                i <= self.outputs@.len(),
                names@.map_values(|name: String| name@) == all_filenames(self@.take(i as int)),
            decreases self.outputs@.len() - i,
        {
            let node = &self.outputs[i];
            let ghost before = names@.map_values(|name: String| name@);
            let mut j: usize = 0;
            while j < node.images.len()
                invariant
                    j <= node.images@.len(),
                    names@.map_values(|name: String| name@) == before + node@.images.take(j as int),
                decreases node.images@.len() - j,
            {
                let ghost sofar = names@.map_values(|name: String| name@);
                names.push(node.images[j].filename.clone());
                assert(names@.map_values(|name: String| name@) =~= sofar.push(
                    node.images@[j as int].filename@,
                ));
                assert(node@.images.take(j + 1) =~= node@.images.take(j as int).push(
                    node@.images[j as int],
                ));
                j += 1;
            }
            assert(node@.images.take(j as int) =~= node@.images);
            assert(self@.take(i + 1).drop_last() =~= self@.take(i as int));
            assert(self@.take(i + 1).last() == node@);
            i += 1;
        }
        assert(self@.take(i as int) =~= self@);
        names
    }
}

} // verus!
