use vstd::prelude::*;
use vstd::std_specs::convert::FromSpecImpl;
use vstd::string::StringExecFns;

verus! {

/// The layers that the UI host creates under its root node, back to front.
#[derive(Debug, Clone, Copy, PartialEq, Eq, Hash, Structural)]
pub enum BuiltInUiLayer {
    Background,
    Main,
    Debug,
}

/// The name of a built-in layer: the name of its variant.
pub open spec fn built_in_layer_name(layer: BuiltInUiLayer) -> Seq<char> {
    match layer {
        BuiltInUiLayer::Background => "Background"@,
        BuiltInUiLayer::Main => "Main"@,
        BuiltInUiLayer::Debug => "Debug"@,
    }
}

/// Every built-in layer, in declaration order.
pub open spec fn all_built_in_layers() -> Seq<BuiltInUiLayer> {
    seq![BuiltInUiLayer::Background, BuiltInUiLayer::Main, BuiltInUiLayer::Debug]
}

/// The text that prefixes the name of every layer node.
pub open spec fn layer_node_prefix() -> Seq<char> {
    "UiRootRes::Layer::"@
}

impl BuiltInUiLayer {
    /// Every built-in layer, in declaration order.
    pub fn all() -> (r: Vec<BuiltInUiLayer>)
        ensures
            r@ == all_built_in_layers(),
    {
        vec![BuiltInUiLayer::Background, BuiltInUiLayer::Main, BuiltInUiLayer::Debug]
    }

    /// The name of the layer.
    pub fn as_str(&self) -> (r: &'static str)
        ensures
            r@ == built_in_layer_name(*self),
    {
        match self {
            BuiltInUiLayer::Background => "Background",
            BuiltInUiLayer::Main => "Main",
            BuiltInUiLayer::Debug => "Debug",
        }
    }

    /// The name given to the node of this layer under the UI root.
    pub fn layer_node_name(&self) -> (r: String)
        ensures
            r@ == layer_node_prefix() + built_in_layer_name(*self),
    {
        let mut name = String::from_str("UiRootRes::Layer::");
        name.append(self.as_str());
        name
    }
}

/// What identifies a layer: one of the built-in layers, or a layer named by the user.
pub enum LayerKeyModel {
    BuiltIn(BuiltInUiLayer),
    Custom(Seq<char>),
}

/// The key under which a layer node is registered.
#[derive(Debug, Clone, PartialEq, Eq, Hash)]
pub enum UiLayerKey {
    BuiltIn(BuiltInUiLayer),
    Custom(String),
}

impl View for UiLayerKey {
    type V = LayerKeyModel;

    open spec fn view(&self) -> LayerKeyModel {
        match self {
            UiLayerKey::BuiltIn(layer) => LayerKeyModel::BuiltIn(*layer),
            UiLayerKey::Custom(name) => LayerKeyModel::Custom(name@),
        }
    }
}

/// The name of a layer key: the built-in layer's name, or the custom name itself.
pub open spec fn layer_key_name(key: LayerKeyModel) -> Seq<char> {
    match key {
        LayerKeyModel::BuiltIn(layer) => built_in_layer_name(layer),
        LayerKeyModel::Custom(name) => name,
    }
}

impl From<BuiltInUiLayer> for UiLayerKey {
    fn from(value: BuiltInUiLayer) -> (r: Self) {
        UiLayerKey::BuiltIn(value)
    }
}

impl FromSpecImpl<BuiltInUiLayer> for UiLayerKey {
    open spec fn obeys_from_spec() -> bool {
        true
    }

    open spec fn from_spec(v: BuiltInUiLayer) -> UiLayerKey {
        UiLayerKey::BuiltIn(v)
    }
}

impl UiLayerKey {
    /// A key for a layer named by the user (a Pascal-case name is recommended).
    pub fn custom(name: &str) -> (r: Self)
        ensures
            r@ == LayerKeyModel::Custom(name@),
    {
        UiLayerKey::Custom(String::from_str(name))
    }

    /// The name of the key.
    pub fn as_str(&self) -> (r: &str)
        ensures
            r@ == layer_key_name(self@),
    {
        match self {
            UiLayerKey::BuiltIn(layer) => layer.as_str(),
            UiLayerKey::Custom(name) => name.as_str(),
        }
    }

    /// Whether two keys name the same layer.
    pub fn same_key(&self, other: &UiLayerKey) -> (r: bool)
        ensures
            r == (self@ == other@),
    {
        match (self, other) {
            (UiLayerKey::BuiltIn(a), UiLayerKey::BuiltIn(b)) => *a == *b,
            (UiLayerKey::Custom(a), UiLayerKey::Custom(b)) => *a == *b,
            _ => false,
        }
    }
}

/// Marks a layer node with the key it is registered under.
#[derive(Debug, Clone, PartialEq, Eq, Hash)]
pub struct UiLayerNode(pub UiLayerKey);

/// The abstract state of the UI host: the root node and the layer node registered per key.
pub struct UiRootModel {
    pub ui_root: u64,
    pub layers: Map<LayerKeyModel, u64>,
}

/// The UI host's record of its root node and of the layer nodes under it. Nodes are
/// identified by the bits of their entity.
#[derive(Debug)]
pub struct UiRootRes {
    ui_root: u64,
    layers: Vec<(UiLayerKey, u64)>,
}

/// Position `i` of `entries` holds the first registration of `key`.
spec fn first_with(entries: Seq<(UiLayerKey, u64)>, i: int, key: LayerKeyModel) -> bool {
    &&& 0 <= i < entries.len()
    &&& entries[i].0@ == key
    &&& forall|j: int| 0 <= j < i ==> #[trigger] entries[j].0@ != key
}

/// Each key maps to the node of its first registration in `entries`.
spec fn layer_map(entries: Seq<(UiLayerKey, u64)>) -> Map<LayerKeyModel, u64> {
    Map::new(
        |k: LayerKeyModel| exists|i: int| 0 <= i < entries.len() && #[trigger] entries[i].0@ == k,
        |k: LayerKeyModel| entries[choose|i: int| first_with(entries, i, k)].1,
    )
}

proof fn lemma_first_exists(entries: Seq<(UiLayerKey, u64)>, i: int, key: LayerKeyModel)
    requires
        0 <= i < entries.len(),
        entries[i].0@ == key,
    ensures
        exists|f: int| first_with(entries, f, key),
    decreases i,
{
    if exists|j: int| 0 <= j < i && #[trigger] entries[j].0@ == key {
        let j = choose|j: int| 0 <= j < i && #[trigger] entries[j].0@ == key;
        lemma_first_exists(entries, j, key);
    } else {
        assert(first_with(entries, i, key));
    }
}

proof fn lemma_first_unique(entries: Seq<(UiLayerKey, u64)>, i: int, c: int, key: LayerKeyModel)
    requires
        first_with(entries, i, key),
        first_with(entries, c, key),
    ensures
        i == c,
{
    if c < i {
        assert(entries[c].0@ != key);
    } else if c > i {
        assert(entries[i].0@ != key);
    }
}

/// The first registration of a key is what the map gives for it.
proof fn lemma_lookup(entries: Seq<(UiLayerKey, u64)>, i: int, key: LayerKeyModel)
    requires
        first_with(entries, i, key),
    ensures
        layer_map(entries).dom().contains(key),
        layer_map(entries)[key] == entries[i].1,
{
    assert(entries[i].0@ == key);
    let c = choose|c: int| first_with(entries, c, key);
    lemma_first_unique(entries, i, c, key);
}

/// Replacing the node of the first registration of a key re-maps that key alone.
proof fn lemma_replace(entries: Seq<(UiLayerKey, u64)>, i: int, entry: (UiLayerKey, u64))
    requires
        first_with(entries, i, entry.0@),
    ensures
        layer_map(entries.update(i, entry)) == layer_map(entries).insert(entry.0@, entry.1),
{
    let key = entry.0@;
    let new = entries.update(i, entry);
    let m = layer_map(new);
    let o = layer_map(entries).insert(key, entry.1);
    assert forall|k: LayerKeyModel| m.dom().contains(k) <==> o.dom().contains(k) by {
        if m.dom().contains(k) {
            let j = choose|j: int| 0 <= j < new.len() && #[trigger] new[j].0@ == k;
            if j != i {
                assert(entries[j].0@ == k);
            }
        }
        if o.dom().contains(k) && k != key {
            let j = choose|j: int| 0 <= j < entries.len() && #[trigger] entries[j].0@ == k;
            assert(new[j].0@ == k);
        }
        if k == key {
            assert(new[i].0@ == k);
        }
    }
    assert forall|k: LayerKeyModel| m.dom().contains(k) implies m[k] == o[k] by {
        if k == key {
            assert(first_with(new, i, key));
            lemma_lookup(new, i, key);
        } else {
            let j = choose|j: int| 0 <= j < new.len() && #[trigger] new[j].0@ == k;
            assert(entries[j].0@ == k);
            lemma_first_exists(entries, j, k);
            let f = choose|f: int| first_with(entries, f, k);
            lemma_lookup(entries, f, k);
            assert(f != i);
            assert(first_with(new, f, k));
            lemma_lookup(new, f, k);
        }
    }
    assert(m =~= o);
}

/// Appending a registration of a key not yet registered maps that key alone.
proof fn lemma_append(entries: Seq<(UiLayerKey, u64)>, entry: (UiLayerKey, u64))
    requires
        !layer_map(entries).dom().contains(entry.0@),
    ensures
        layer_map(entries.push(entry)) == layer_map(entries).insert(entry.0@, entry.1),
{
    let key = entry.0@;
    let new = entries.push(entry);
    let n = entries.len() as int;
    let m = layer_map(new);
    let o = layer_map(entries).insert(key, entry.1);
    assert forall|k: LayerKeyModel| m.dom().contains(k) <==> o.dom().contains(k) by {
        if m.dom().contains(k) && k != key {
            let j = choose|j: int| 0 <= j < new.len() && #[trigger] new[j].0@ == k;
            assert(j != n);
            assert(entries[j].0@ == k);
        }
        if o.dom().contains(k) && k != key {
            let j = choose|j: int| 0 <= j < entries.len() && #[trigger] entries[j].0@ == k;
            assert(new[j].0@ == k);
        }
        if k == key {
            assert(new[n].0@ == k);
        }
    }
    assert forall|k: LayerKeyModel| m.dom().contains(k) implies m[k] == o[k] by {
        if k == key {
            assert forall|j: int| 0 <= j < n implies #[trigger] new[j].0@ != key by {
                if new[j].0@ == key {
                    assert(entries[j].0@ == key);
                }
            }
            assert(first_with(new, n, key));
            lemma_lookup(new, n, key);
        } else {
            let j = choose|j: int| 0 <= j < new.len() && #[trigger] new[j].0@ == k;
            assert(j != n);
            assert(entries[j].0@ == k);
            lemma_first_exists(entries, j, k);
            let f = choose|f: int| first_with(entries, f, k);
            lemma_lookup(entries, f, k);
            assert(first_with(new, f, k));
            lemma_lookup(new, f, k);
        }
    }
    assert(m =~= o);
}

impl View for UiRootRes {
    type V = UiRootModel;

    closed spec fn view(&self) -> UiRootModel {
        UiRootModel { ui_root: self.ui_root, layers: layer_map(self.layers@) }
    }
}

impl UiRootRes {
    /// A record of the root node `ui_root` with no layer registered yet.
    pub fn new(ui_root: u64) -> (r: Self)
        ensures
            r@.ui_root == ui_root,
            r@.layers == Map::<LayerKeyModel, u64>::empty(),
    {
        let r = UiRootRes { ui_root, layers: Vec::new() };
        assert(r@.layers =~= Map::<LayerKeyModel, u64>::empty());
        r
    }

    /// The root node.
    pub fn ui_root(&self) -> (r: u64)
        ensures
            r == self@.ui_root,
    {
        self.ui_root
    }

    /// The position of the first registration of `key`, if any.
    fn find(&self, key: &UiLayerKey) -> (r: Option<usize>)
        ensures
            r matches Some(i) ==> first_with(self.layers@, i as int, key@),
            r is None ==> forall|i: int|
                0 <= i < self.layers@.len() ==> #[trigger] self.layers@[i].0@ != key@,
    {
        let mut i: usize = 0;
        while i < self.layers.len()
            invariant
                i <= self.layers@.len(),
                forall|j: int| 0 <= j < i ==> #[trigger] self.layers@[j].0@ != key@,
            decreases self.layers@.len() - i,
        {
            if self.layers[i].0.same_key(key) {
                return Some(i);
            }
            i = i + 1;
        }
        None
    }

    /// The layer node registered under `key`, if any.
    pub fn try_get_layer_node(&self, key: &UiLayerKey) -> (r: Option<u64>)
        ensures
            r == if self@.layers.dom().contains(key@) {
                Some(self@.layers[key@])
            } else {
                None
            },
    {
        match self.find(key) {
            Some(i) => {
                proof {
                    lemma_lookup(self.layers@, i as int, key@);
                }
                Some(self.layers[i].1)
            },
            None => {
                assert(!self@.layers.dom().contains(key@));
                None
            },
        }
    }

    /// The layer node registered under `key`, which must have been registered.
    pub fn get_layer_node(&self, key: &UiLayerKey) -> (r: u64)
        requires
            self@.layers.dom().contains(key@),
        ensures
            r == self@.layers[key@],
    {
        match self.try_get_layer_node(key) {
            Some(e) => e,
            None => 0,
        }
    }

    /// The node of a built-in layer, which must have been registered.
    pub fn get_built_in_layer_node(&self, key: BuiltInUiLayer) -> (r: u64)
        requires
            self@.layers.dom().contains(LayerKeyModel::BuiltIn(key)),
        ensures
            r == self@.layers[LayerKeyModel::BuiltIn(key)],
    {
        self.get_layer_node(&UiLayerKey::BuiltIn(key))
    }

    /// Registers `created_layer` as the node of the built-in layer `key`, replacing any node
    /// registered before; tells whether one was.
    pub fn pre_build_layer_node(&mut self, key: BuiltInUiLayer, created_layer: u64) -> (r: bool)
        ensures
            r == old(self)@.layers.dom().contains(LayerKeyModel::BuiltIn(key)),
            final(self)@.ui_root == old(self)@.ui_root,
            final(self)@.layers == old(self)@.layers.insert(LayerKeyModel::BuiltIn(key), created_layer),
    {
        let layer_key = UiLayerKey::BuiltIn(key);
        match self.find(&layer_key) {
            Some(i) => {
                proof {
                    lemma_lookup(self.layers@, i as int, layer_key@);
                    lemma_replace(self.layers@, i as int, (layer_key, created_layer));
                }
                self.layers.set(i, (layer_key, created_layer));
                true
            },
            None => {
                proof {
                    lemma_append(self.layers@, (layer_key, created_layer));
                }
                self.layers.push((layer_key, created_layer));
                false
            },
        }
    }

    /// A record of the root node `ui_root` with exactly the built-in layers registered, the
    /// node of the `i`-th of `BuiltInUiLayer::all()` being `layer_nodes[i]`.
    pub fn bootstrap(ui_root: u64, layer_nodes: &Vec<u64>) -> (r: Self)
        requires
            layer_nodes@.len() == all_built_in_layers().len(),
        ensures
            r@.ui_root == ui_root,
            forall|k: LayerKeyModel| #[trigger] r@.layers.dom().contains(k) <==> k is BuiltIn,
            forall|i: int|
                0 <= i < layer_nodes@.len() ==> r@.layers[LayerKeyModel::BuiltIn(
                    #[trigger] all_built_in_layers()[i],
                )] == layer_nodes@[i],
    {
        let mut res = UiRootRes::new(ui_root);
        let layers = BuiltInUiLayer::all();
        let mut i: usize = 0;
        while i < layers.len()
            invariant
                layers@ == all_built_in_layers(),
                layer_nodes@.len() == layers@.len(),
                i <= layers@.len(),
                res@.ui_root == ui_root,
                forall|k: LayerKeyModel|
                    #[trigger] res@.layers.dom().contains(k) <==> exists|j: int|
                        0 <= j < i && k == LayerKeyModel::BuiltIn(#[trigger] layers@[j]),
                forall|j: int|
                    0 <= j < i ==> res@.layers[LayerKeyModel::BuiltIn(#[trigger] layers@[j])]
                        == layer_nodes@[j],
            decreases layers@.len() - i,
        {
            res.pre_build_layer_node(layers[i], layer_nodes[i]);
            i = i + 1;
        }
        assert forall|k: LayerKeyModel| #[trigger] res@.layers.dom().contains(k) <==> k is BuiltIn by {
            if k is BuiltIn {
                let l = k->BuiltIn_0;
                match l {
                    BuiltInUiLayer::Background => assert(k == LayerKeyModel::BuiltIn(layers@[0])),
                    BuiltInUiLayer::Main => assert(k == LayerKeyModel::BuiltIn(layers@[1])),
                    BuiltInUiLayer::Debug => assert(k == LayerKeyModel::BuiltIn(layers@[2])),
                }
            }
        }
        res
    }
}

/// A layer node registered under a built-in layer reads back as that node, and every other
/// key keeps what it read before.
pub proof fn lemma_registered_layer_reads_back(
    layers: Map<LayerKeyModel, u64>,
    key: BuiltInUiLayer,
    node: u64,
    other: LayerKeyModel,
)
    ensures
        layers.insert(LayerKeyModel::BuiltIn(key), node).dom().contains(LayerKeyModel::BuiltIn(key)),
        layers.insert(LayerKeyModel::BuiltIn(key), node)[LayerKeyModel::BuiltIn(key)] == node,
        other != LayerKeyModel::BuiltIn(key) ==> {
            &&& layers.insert(LayerKeyModel::BuiltIn(key), node).dom().contains(other)
                == layers.dom().contains(other)
            &&& layers.dom().contains(other) ==> layers.insert(LayerKeyModel::BuiltIn(key), node)[other]
                == layers[other]
        },
{
}

/// A custom layer never stands for a built-in one, even under the same name.
pub proof fn lemma_custom_keys_differ_from_built_in(name: Seq<char>, layer: BuiltInUiLayer)
    ensures
        LayerKeyModel::Custom(name) != LayerKeyModel::BuiltIn(layer),
{
}

} // verus!
