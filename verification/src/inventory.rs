//! The compute inventory that the backend reports, its wire format, and the node
//! type derived from it.

use crate::json::{
    array_view, find_member, lemma_array_view, lemma_object_view, object_view, Json, JsonModel,
};
use crate::text::{contains_text, decimal, text_contains, to_decimal};
use vstd::prelude::*;

verus! {

/// One accelerator of the inventory.
#[derive(Debug, Clone, PartialEq)]
pub struct GpuInfo {
    pub slot: String,
    pub product_id: String,
    pub description: String,
    pub is_free: bool,
}

/// What a [`GpuInfo`] holds.
pub struct GpuView {
    pub slot: Seq<char>,
    pub product_id: Seq<char>,
    pub description: Seq<char>,
    pub is_free: bool,
}

impl View for GpuInfo {
    type V = GpuView;

    open spec fn view(&self) -> GpuView {
        GpuView {
            slot: self.slot@,
            product_id: self.product_id@,
            description: self.description@,
            is_free: self.is_free,
        }
    }
}

/// The inventory that one probe of the backend returns.
#[derive(Debug, Clone, PartialEq)]
pub struct DStackResponse {
    pub gpus: Vec<GpuInfo>,
    pub allow_attach_all: bool,
}

/// What a [`DStackResponse`] holds.
pub struct InventoryView {
    pub gpus: Seq<GpuView>,
    pub allow_attach_all: bool,
}

/// What each accelerator of a list holds.
pub open spec fn gpus_view(gpus: Seq<GpuInfo>) -> Seq<GpuView> {
    Seq::new(gpus.len(), |i: int| gpus[i]@)
}

impl View for DStackResponse {
    type V = InventoryView;

    open spec fn view(&self) -> InventoryView {
        InventoryView { gpus: gpus_view(self.gpus@), allow_attach_all: self.allow_attach_all }
    }
}

/// What an inventory that may be absent holds.
pub open spec fn inventory_option_view(inventory: Option<DStackResponse>) -> Option<
    InventoryView,
> {
    match inventory {
        Some(i) => Some(i@),
        None => None,
    }
}

/// The accelerator that a JSON document describes: an object with the strings `slot`,
/// `product_id` and `description` and the boolean `is_free`. Other members are ignored.
pub open spec fn gpu_of_json(doc: JsonModel) -> Option<GpuView> {
    if doc.text_member("slot"@) is Some && doc.text_member("product_id"@) is Some
        && doc.text_member("description"@) is Some && doc.bool_member("is_free"@) is Some {
        Some(
            GpuView {
                slot: doc.text_member("slot"@)->0,
                product_id: doc.text_member("product_id"@)->0,
                description: doc.text_member("description"@)->0,
                is_free: doc.bool_member("is_free"@)->0,
            },
        )
    } else {
        None
    }
}

/// The accelerators that a JSON array describes, where every item describes one.
pub open spec fn gpus_of_json(items: Seq<JsonModel>) -> Option<Seq<GpuView>> {
    if forall|i: int| 0 <= i < items.len() ==> (#[trigger] gpu_of_json(items[i])) is Some {
        Some(Seq::new(items.len(), |i: int| gpu_of_json(items[i])->0))
    } else {
        None
    }
}

/// The inventory that a JSON document describes: an object with the array `gpus` of
/// accelerators and the boolean `allow_attach_all`. Other members are ignored.
pub open spec fn inventory_of_json(doc: JsonModel) -> Option<InventoryView> {
    match (doc.array_member("gpus"@), doc.bool_member("allow_attach_all"@)) {
        (Some(items), Some(allow)) => match gpus_of_json(items) {
            Some(gpus) => Some(InventoryView { gpus, allow_attach_all: allow }),
            None => None,
        },
        _ => None,
    }
}

impl GpuInfo {
    /// Reads an accelerator from a JSON document.
    pub fn from_json(doc: &Json) -> (gpu: Option<GpuInfo>)
        ensures
            gpu_of_json(doc@) == match gpu {
                Some(g) => Some(g@),
                None => None,
            },
    {
        let slot = match doc.text_member("slot") {
            Some(t) => t.clone(),
            None => {
                return None;
            },
        };
        let product_id = match doc.text_member("product_id") {
            Some(t) => t.clone(),
            None => {
                return None;
            },
        };
        let description = match doc.text_member("description") {
            Some(t) => t.clone(),
            None => {
                return None;
            },
        };
        let is_free = match doc.bool_member("is_free") {
            Some(b) => b,
            None => {
                return None;
            },
        };
        Some(GpuInfo { slot, product_id, description, is_free })
    }
}

impl DStackResponse {
    /// Reads an inventory from a JSON document.
    pub fn from_json(doc: &Json) -> (inventory: Option<DStackResponse>)
        ensures
            inventory_option_view(inventory) == inventory_of_json(doc@),
    {
        let items = match doc.array_member("gpus") {
            Some(items) => items,
            None => {
                return None;
            },
        };
        let allow_attach_all = match doc.bool_member("allow_attach_all") {
            Some(b) => b,
            None => {
                return None;
            },
        };
        let ghost models = array_view(items@);
        let mut gpus: Vec<GpuInfo> = Vec::new();
        let mut i: usize = 0;
        while i < items.len()
            invariant
                i <= items.len(),
                models == array_view(items@),
                doc@.array_member("gpus"@) == Some(models),
                doc@.bool_member("allow_attach_all"@) == Some(allow_attach_all),
                gpus.len() == i,
                forall|k: int| 0 <= k < i ==> gpu_of_json(models[k]) == Some(#[trigger] gpus[k]@),
            decreases items.len() - i,
        {
            match GpuInfo::from_json(&items[i]) {
                Some(gpu) => {
                    gpus.push(gpu);
                },
                None => {
                    assert(gpu_of_json(models[i as int]) is None);
                    return None;
                },
            }
            i += 1;
        }
        let inventory = DStackResponse { gpus, allow_attach_all };
        proof {
            assert forall|k: int| 0 <= k < models.len() implies (#[trigger] gpu_of_json(
                models[k],
            )) is Some by {
                assert(gpu_of_json(models[k]) == Some(inventory.gpus[k]@));
            }
            assert(gpus_of_json(models)->0 =~= inventory@.gpus);
        }
        Some(inventory)
    }
}

/// The JSON document that describes an accelerator.
pub open spec fn gpu_to_json(gpu: GpuView) -> JsonModel {
    JsonModel::Object(
        seq![
            ("slot"@, JsonModel::Text(gpu.slot)),
            ("product_id"@, JsonModel::Text(gpu.product_id)),
            ("description"@, JsonModel::Text(gpu.description)),
            ("is_free"@, JsonModel::Bool(gpu.is_free)),
        ],
    )
}

/// The JSON documents that describe a list of accelerators.
pub open spec fn gpus_to_json(gpus: Seq<GpuView>) -> Seq<JsonModel> {
    Seq::new(gpus.len(), |i: int| gpu_to_json(gpus[i]))
}

/// The JSON document that describes an inventory.
pub open spec fn inventory_to_json(inventory: InventoryView) -> JsonModel {
    JsonModel::Object(
        seq![
            ("gpus"@, JsonModel::Array(gpus_to_json(inventory.gpus))),
            ("allow_attach_all"@, JsonModel::Bool(inventory.allow_attach_all)),
        ],
    )
}

/// The keys of the wire format differ from one another.
pub proof fn lemma_inventory_keys_differ()
    ensures
        "slot"@ != "product_id"@,
        "slot"@ != "description"@,
        "slot"@ != "is_free"@,
        "product_id"@ != "description"@,
        "product_id"@ != "is_free"@,
        "description"@ != "is_free"@,
        "gpus"@ != "allow_attach_all"@,
{
    reveal_strlit("slot");
    reveal_strlit("product_id");
    reveal_strlit("description");
    reveal_strlit("is_free");
    reveal_strlit("gpus");
    reveal_strlit("allow_attach_all");
    assert("slot"@.len() == 4);
    assert("product_id"@.len() == 10);
    assert("description"@.len() == 11);
    assert("is_free"@.len() == 7);
    assert("gpus"@.len() == 4);
    assert("allow_attach_all"@.len() == 16);
    assert("slot"@[0] == 's');
    assert("gpus"@[0] == 'g');
}

/// Reading what was written for an accelerator gives the accelerator back.
pub proof fn lemma_gpu_round_trip(gpu: GpuView)
    ensures
        gpu_of_json(gpu_to_json(gpu)) == Some(gpu),
{
    lemma_inventory_keys_differ();
    let members = gpu_to_json(gpu)->Object_0;
    reveal_with_fuel(find_member, 5);
    assert(members.drop_last() =~= members.take(3));
    assert(members.take(3).drop_last() =~= members.take(2));
    assert(members.take(2).drop_last() =~= members.take(1));
    assert(members.take(1).drop_last() =~= members.take(0));
}

/// Reading what was written for an inventory gives the inventory back.
pub proof fn lemma_inventory_round_trip(inventory: InventoryView)
    ensures
        inventory_of_json(inventory_to_json(inventory)) == Some(inventory),
{
    lemma_inventory_keys_differ();
    let members = inventory_to_json(inventory)->Object_0;
    reveal_with_fuel(find_member, 3);
    assert(members.drop_last() =~= members.take(1));
    assert(members.take(1).drop_last() =~= members.take(0));
    let items = gpus_to_json(inventory.gpus);
    assert forall|i: int| 0 <= i < items.len() implies (#[trigger] gpu_of_json(items[i]))
        == Some(inventory.gpus[i]) by {
        lemma_gpu_round_trip(inventory.gpus[i]);
    }
    assert(gpus_of_json(items)->0 =~= inventory.gpus);
}

impl GpuInfo {
    /// Writes the accelerator as a JSON document.
    pub fn to_json(&self) -> (doc: Json)
        ensures
            doc@ == gpu_to_json(self@),
    {
        let members = vec![
            (String::from_str("slot"), Json::Text(self.slot.clone())),
            (String::from_str("product_id"), Json::Text(self.product_id.clone())),
            (String::from_str("description"), Json::Text(self.description.clone())),
            (String::from_str("is_free"), Json::Bool(self.is_free)),
        ];
        proof {
            lemma_object_view(members);
            assert(object_view(members@) =~= gpu_to_json(self@)->Object_0);
        }
        Json::Object(members)
    }
}

impl DStackResponse {
    /// Writes the inventory as a JSON document.
    pub fn to_json(&self) -> (doc: Json)
        ensures
            doc@ == inventory_to_json(self@),
    {
        let mut items: Vec<Json> = Vec::new();
        let mut i: usize = 0;
        while i < self.gpus.len()
            invariant
                i <= self.gpus.len(),
                items.len() == i,
                forall|k: int| 0 <= k < i ==> (#[trigger] items[k])@ == gpu_to_json(self.gpus[k]@),
            decreases self.gpus.len() - i,
        {
            items.push(self.gpus[i].to_json());
            i += 1;
        }
        proof {
            lemma_array_view(items);
            assert(array_view(items@) =~= gpus_to_json(self@.gpus));
        }
        let members = vec![
            (String::from_str("gpus"), Json::Array(items)),
            (String::from_str("allow_attach_all"), Json::Bool(self.allow_attach_all)),
        ];
        proof {
            lemma_object_view(members);
            assert(object_view(members@) =~= inventory_to_json(self@)->Object_0);
        }
        Json::Object(members)
    }
}

/// The accelerator model that a description names: the first of `H200`, `H100` and
/// `B200` that stands in it.
pub open spec fn gpu_model(description: Seq<char>) -> Option<Seq<char>> {
    if contains_text(description, "H200"@) {
        Some("H200"@)
    } else if contains_text(description, "H100"@) {
        Some("H100"@)
    } else if contains_text(description, "B200"@) {
        Some("B200"@)
    } else {
        None
    }
}

/// The node type of an inventory: `CPU` without accelerators; otherwise `node-`, the
/// model that the first accelerator's description names, `x` and the number of
/// accelerators; `Unknown` where that description names no model.
pub open spec fn node_type(inventory: InventoryView) -> Seq<char> {
    if inventory.gpus.len() == 0 {
        "CPU"@
    } else {
        match gpu_model(inventory.gpus[0].description) {
            Some(model) => "node-"@ + model + "x"@ + decimal(inventory.gpus.len()),
            None => "Unknown"@,
        }
    }
}

/// Derives the node type from an inventory.
pub fn determine_node_type(dstack_response: &DStackResponse) -> (name: String)
    ensures
        name@ == node_type(dstack_response@),
{
    let gpu_count = dstack_response.gpus.len();
    if gpu_count == 0 {
        return String::from_str("CPU");
    }
    let first_gpu = &dstack_response.gpus[0];
    let description = first_gpu.description.as_str();
    let model = if text_contains(description, "H200") {
        "H200"
    } else if text_contains(description, "H100") {
        "H100"
    } else if text_contains(description, "B200") {
        "B200"
    } else {
        return String::from_str("Unknown");
    };
    let mut name = String::from_str("node-");
    name.append(model);
    name.append("x");
    name.append(to_decimal(gpu_count as u64).as_str());
    name
}

/// Where the description of the first accelerator names `H100` and not `H200`, the
/// node type is `node-H100x` and the number of accelerators.
pub proof fn lemma_h100_node_type(inventory: InventoryView)
    requires
        inventory.gpus.len() > 0,
        contains_text(inventory.gpus[0].description, "H100"@),
        !contains_text(inventory.gpus[0].description, "H200"@),
    ensures
        node_type(inventory) == "node-H100x"@ + decimal(inventory.gpus.len()),
{
    reveal_strlit("node-");
    reveal_strlit("H100");
    reveal_strlit("x");
    reveal_strlit("node-H100x");
    assert("node-"@ + "H100"@ + "x"@ =~= "node-H100x"@);
}

/// The node type rests on the description of the first accelerator and on the number
/// of accelerators alone.
pub proof fn lemma_node_type_ignores_the_rest(a: InventoryView, b: InventoryView)
    requires
        a.gpus.len() == b.gpus.len(),
        a.gpus.len() > 0 ==> a.gpus[0].description == b.gpus[0].description,
    ensures
        node_type(a) == node_type(b),
{
}

} // verus!
