//! Streaming services, as Blackmagic's service files describe them.
//!
//! A service file is XML. The document is read by `roxmltree` and turned into a
//! list of plain nodes; what the nodes say is read here.
use vstd::prelude::*;
use vstd::string::*;

use crate::nesting::{deepest_nesting, nesting, MAX_NESTING};
use crate::number::{lowered, parse_u32, parse_u64, parsed, to_lower};
use crate::scan::{find_text, found_from, trim, trimmed};
use crate::text::{opt_text, same, slice_text, to_chars};

verus! {

// ---------------------------------------------------------------------------
// Services
// ---------------------------------------------------------------------------

/// The encoding a profile asks for at one resolution and frame rate.
#[derive(Clone, Debug)]
pub struct StreamConfig {
    pub resolution: String,
    pub fps: u32,
    pub codec: String,
    pub bitrate: u64,
    pub audio_bitrate: u64,
    pub keyframe_interval: u32,
}

/// A quality level, with its encodings.
#[derive(Clone, Debug)]
pub struct StreamProfile {
    pub name: String,
    pub low_latency: bool,
    pub configs: Vec<StreamConfig>,
}

/// A place that a service can be reached at.
#[derive(Clone, Debug)]
pub struct StreamServer {
    pub name: String,
    pub group: String,
    pub url: String,
}

/// A streaming service.
#[derive(Clone, Debug)]
pub struct StreamService {
    pub name: String,
    pub key: String,
    pub servers: Vec<StreamServer>,
    pub profiles: Vec<StreamProfile>,
    pub default_profile: String,
}

/// What a `StreamConfig` holds.
pub struct ConfigModel {
    pub resolution: Seq<char>,
    pub fps: u32,
    pub codec: Seq<char>,
    pub bitrate: u64,
    pub audio_bitrate: u64,
    pub keyframe_interval: u32,
}

/// What a `StreamProfile` holds.
pub struct ProfileModel {
    pub name: Seq<char>,
    pub low_latency: bool,
    pub configs: Seq<ConfigModel>,
}

/// What a `StreamServer` holds.
pub struct ServerModel {
    pub name: Seq<char>,
    pub group: Seq<char>,
    pub url: Seq<char>,
}

/// What a `StreamService` holds.
pub struct ServiceModel {
    pub name: Seq<char>,
    pub key: Seq<char>,
    pub servers: Seq<ServerModel>,
    pub profiles: Seq<ProfileModel>,
    pub default_profile: Seq<char>,
}

impl View for StreamConfig {
    type V = ConfigModel;

    open spec fn view(&self) -> ConfigModel {
        ConfigModel {
            resolution: self.resolution@,
            fps: self.fps,
            codec: self.codec@,
            bitrate: self.bitrate,
            audio_bitrate: self.audio_bitrate,
            keyframe_interval: self.keyframe_interval,
        }
    }
}

impl View for StreamProfile {
    type V = ProfileModel;

    open spec fn view(&self) -> ProfileModel {
        ProfileModel {
            name: self.name@,
            low_latency: self.low_latency,
            configs: Seq::new(self.configs@.len(), |i: int| self.configs@[i]@),
        }
    }
}

impl View for StreamServer {
    type V = ServerModel;

    open spec fn view(&self) -> ServerModel {
        ServerModel { name: self.name@, group: self.group@, url: self.url@ }
    }
}

impl View for StreamService {
    type V = ServiceModel;

    open spec fn view(&self) -> ServiceModel {
        ServiceModel {
            name: self.name@,
            key: self.key@,
            servers: Seq::new(self.servers@.len(), |i: int| self.servers@[i]@),
            profiles: Seq::new(self.profiles@.len(), |i: int| self.profiles@[i]@),
            default_profile: self.default_profile@,
        }
    }
}

/// The first configuration for a resolution and a frame rate.
pub open spec fn config_for(configs: Seq<ConfigModel>, resolution: Seq<char>, fps: u32) -> Option<
    int,
>
    decreases configs.len(),
{
    if configs.len() == 0 {
        None
    } else {
        match config_for(configs.drop_last(), resolution, fps) {
            Some(i) => Some(i),
            None => if configs.last().resolution == resolution && configs.last().fps == fps {
                Some(configs.len() - 1)
            } else {
                None
            },
        }
    }
}

/// The place of the first profile with a name.
pub open spec fn profile_named(profiles: Seq<ProfileModel>, name: Seq<char>) -> Option<int>
    decreases profiles.len(),
{
    if profiles.len() == 0 {
        None
    } else {
        match profile_named(profiles.drop_last(), name) {
            Some(i) => Some(i),
            None => if profiles.last().name == name {
                Some(profiles.len() - 1)
            } else {
                None
            },
        }
    }
}

/// The place of the profile that a service uses when none is asked for: the one
/// with the default name, or else the first.
pub open spec fn default_profile(s: ServiceModel) -> Option<int> {
    match profile_named(s.profiles, s.default_profile) {
        Some(i) => Some(i),
        None => if s.profiles.len() > 0 {
            Some(0int)
        } else {
            None
        },
    }
}

/// The scheme of a URL, in lower case; empty if the URL has none.
pub open spec fn scheme_of(url: Seq<char>) -> Seq<char> {
    match found_from(url, "://"@, 0) {
        Some(i) => lowered(url.take(i)),
        None => Seq::empty(),
    }
}

/// The places of the servers that are reached over SRT, in order.
pub open spec fn srt_places(servers: Seq<ServerModel>) -> Seq<int>
    decreases servers.len(),
{
    if servers.len() == 0 {
        Seq::empty()
    } else {
        let rest = srt_places(servers.drop_last());
        if scheme_of(servers.last().url) == "srt"@ {
            rest.push(servers.len() - 1)
        } else {
            rest
        }
    }
}

/// What `config_for` finds is the first match.
pub proof fn config_for_is(configs: Seq<ConfigModel>, resolution: Seq<char>, fps: u32, i: int)
    requires
        0 <= i <= configs.len(),
        forall|j: int|
            0 <= j < i ==> !((#[trigger] configs[j]).resolution == resolution && configs[j].fps
                == fps),
        i < configs.len() ==> configs[i].resolution == resolution && configs[i].fps == fps,
    ensures
        config_for(configs, resolution, fps) == (if i < configs.len() {
            Some(i)
        } else {
            None
        }),
    decreases configs.len(),
{
    if configs.len() > 0 {
        let front = configs.drop_last();
        if i < configs.len() {
            config_for_is(front, resolution, fps, i);
        } else {
            config_for_is(front, resolution, fps, i - 1);
        }
    }
}

/// What `profile_named` finds is the first match.
pub proof fn profile_named_is(profiles: Seq<ProfileModel>, name: Seq<char>, i: int)
    requires
        0 <= i <= profiles.len(),
        forall|j: int| 0 <= j < i ==> (#[trigger] profiles[j]).name != name,
        i < profiles.len() ==> profiles[i].name == name,
    ensures
        profile_named(profiles, name) == (if i < profiles.len() {
            Some(i)
        } else {
            None
        }),
    decreases profiles.len(),
{
    if profiles.len() > 0 {
        let front = profiles.drop_last();
        if i < profiles.len() {
            profile_named_is(front, name, i);
        } else {
            profile_named_is(front, name, i - 1);
        }
    }
}

/// The scheme of a URL, in lower case.
pub fn url_scheme(url: &str) -> (r: String)
    ensures
        r@ == scheme_of(url@),
{
    let v: Vec<char> = to_chars(url);
    let sep: Vec<char> = to_chars("://");
    match find_text(&v, &sep, 0) {
        Some(i) => {
            let scheme: String = slice_text(&v, 0, i);
            assert(v@.subrange(0, i as int) == url@.take(i as int));
            to_lower(scheme.as_str())
        },
        None => String::new(),
    }
}

impl StreamConfig {
    /// A copy that holds the same.
    pub fn duplicate(&self) -> (r: StreamConfig)
        ensures
            r@ == self@,
    {
        StreamConfig {
            resolution: self.resolution.clone(),
            fps: self.fps,
            codec: self.codec.clone(),
            bitrate: self.bitrate,
            audio_bitrate: self.audio_bitrate,
            keyframe_interval: self.keyframe_interval,
        }
    }
}

impl StreamProfile {
    /// The first configuration for `resolution` and `fps`.
    pub fn find_config(&self, resolution: &str, fps: u32) -> (r: Option<&StreamConfig>)
        ensures
            r is Some <==> config_for(self@.configs, resolution@, fps) is Some,
            r matches Some(c) ==> ({
                let i = config_for(self@.configs, resolution@, fps)->0;
                0 <= i < self.configs@.len() && *c == self.configs@[i]
            }),
    {
        let mut i: usize = 0;
        while i < self.configs.len()
            invariant
                i <= self.configs@.len(),
                forall|j: int|
                    0 <= j < i ==> !((#[trigger] self@.configs[j]).resolution == resolution@
                        && self@.configs[j].fps == fps),
            decreases self.configs@.len() - i,
        {
            if same(self.configs[i].resolution.as_str(), resolution) && self.configs[i].fps
                == fps {
                proof {
                    config_for_is(self@.configs, resolution@, fps, i as int);
                }
                return Some(&self.configs[i]);
            }
            i += 1;
        }
        proof {
            config_for_is(self@.configs, resolution@, fps, i as int);
        }
        None
    }
}

impl StreamServer {
    /// The scheme of the server's URL, in lower case.
    pub fn protocol(&self) -> (r: String)
        ensures
            r@ == scheme_of(self.url@),
    {
        url_scheme(self.url.as_str())
    }
}

impl StreamService {
    /// The servers that are reached over SRT, in order.
    pub fn srt_servers(&self) -> (r: Vec<&StreamServer>)
        ensures
            r@.len() == srt_places(self@.servers).len(),
            forall|i: int|
                0 <= i < r@.len() ==> 0 <= #[trigger] srt_places(self@.servers)[i]
                    < self.servers@.len() && *r@[i] == self.servers@[srt_places(
                    self@.servers,
                )[i]],
    {
        let mut out: Vec<&StreamServer> = Vec::new();
        let mut i: usize = 0;
        let ghost mut places = Seq::<int>::empty();
        assert(self@.servers.take(0).len() == 0);
        while i < self.servers.len()
            invariant
                i <= self.servers@.len(),
                places == srt_places(self@.servers.take(i as int)),
                out@.len() == places.len(),
                forall|k: int|
                    0 <= k < places.len() ==> 0 <= #[trigger] places[k] < i && *out@[k]
                        == self.servers@[places[k]],
            decreases self.servers@.len() - i,
        {
            let p: String = self.servers[i].protocol();
            let hit: bool = same(p.as_str(), "srt");
            proof {
                let t = self@.servers.take(i + 1);
                assert(t.drop_last() == self@.servers.take(i as int));
                assert(t.last() == self@.servers[i as int]);
                if hit {
                    places = places.push(i as int);
                }
            }
            if hit {
                out.push(&self.servers[i]);
            }
            i += 1;
        }
        assert(self@.servers.take(i as int) == self@.servers);
        out
    }

    /// The first profile called `name`.
    pub fn find_profile(&self, name: &str) -> (r: Option<&StreamProfile>)
        ensures
            r is Some <==> profile_named(self@.profiles, name@) is Some,
            r matches Some(p) ==> ({
                let i = profile_named(self@.profiles, name@)->0;
                0 <= i < self.profiles@.len() && *p == self.profiles@[i]
            }),
    {
        let mut i: usize = 0;
        while i < self.profiles.len()
            invariant
                i <= self.profiles@.len(),
                forall|j: int| 0 <= j < i ==> (#[trigger] self@.profiles[j]).name != name@,
            decreases self.profiles@.len() - i,
        {
            if same(self.profiles[i].name.as_str(), name) {
                proof {
                    profile_named_is(self@.profiles, name@, i as int);
                }
                return Some(&self.profiles[i]);
            }
            i += 1;
        }
        proof {
            profile_named_is(self@.profiles, name@, i as int);
        }
        None
    }

    /// The profile with the default name, or else the first profile.
    pub fn get_default_profile(&self) -> (r: Option<&StreamProfile>)
        ensures
            r is Some <==> default_profile(self@) is Some,
            r matches Some(p) ==> ({
                let i = default_profile(self@)->0;
                0 <= i < self.profiles@.len() && *p == self.profiles@[i]
            }),
    {
        match self.find_profile(self.default_profile.as_str()) {
            Some(p) => Some(p),
            None => if self.profiles.len() > 0 {
                Some(&self.profiles[0])
            } else {
                None
            },
        }
    }
}

// ---------------------------------------------------------------------------
// Documents
// ---------------------------------------------------------------------------

/// An attribute of an element.
#[derive(Debug)]
pub struct XmlAttribute {
    pub namespace: Option<String>,
    pub name: String,
    pub value: String,
}

/// A node of a document. The nodes of a document stand in document order, and
/// `parent` is the place of the parent among them.
#[derive(Debug)]
pub struct XmlNode {
    pub parent: Option<usize>,
    pub element: bool,
    pub tag: String,
    pub text: Option<String>,
    pub attributes: Vec<XmlAttribute>,
}

/// What an `XmlAttribute` holds.
pub struct AttributeModel {
    pub namespace: Option<Seq<char>>,
    pub name: Seq<char>,
    pub value: Seq<char>,
}

/// What an `XmlNode` holds.
pub struct NodeModel {
    pub parent: Option<usize>,
    pub element: bool,
    pub tag: Seq<char>,
    pub text: Option<Seq<char>>,
    pub attributes: Seq<AttributeModel>,
}

impl View for XmlAttribute {
    type V = AttributeModel;

    open spec fn view(&self) -> AttributeModel {
        AttributeModel {
            namespace: opt_text(self.namespace),
            name: self.name@,
            value: self.value@,
        }
    }
}

impl View for XmlNode {
    type V = NodeModel;

    open spec fn view(&self) -> NodeModel {
        NodeModel {
            parent: self.parent,
            element: self.element,
            tag: self.tag@,
            text: opt_text(self.text),
            attributes: Seq::new(self.attributes@.len(), |i: int| self.attributes@[i]@),
        }
    }
}

/// What the nodes of a list hold.
pub open spec fn node_models(nodes: Seq<XmlNode>) -> Seq<NodeModel> {
    Seq::new(nodes.len(), |i: int| nodes[i]@)
}

/// `roxmltree::Error`: why a text is no XML document.
#[verifier::external_type_specification]
#[verifier::external_body]
pub struct ExXmlError(roxmltree::Error);

/// The nodes that `roxmltree::Document::parse` finds in a text, in document
/// order; `None` if the text is no XML document.
pub uninterp spec fn document_nodes(text: Seq<char>) -> Option<Seq<NodeModel>>;

/// `roxmltree::Document::parse`, with the document turned into plain nodes in
/// document order. Which texts are documents, and what nodes a document has, is
/// a function of the text. The parser goes one level deeper into the stack for each
/// element that is open, so a text in which too many are is not handed to it.
#[verifier::external_body]
fn parse_document(text: &str) -> (r: Result<Vec<XmlNode>, roxmltree::Error>)
    requires
        nesting(text@) <= MAX_NESTING,
    ensures
        r is Ok <==> document_nodes(text@) is Some,
        r matches Ok(nodes) ==> document_nodes(text@) == Some(node_models(nodes@)),
{
    let doc = roxmltree::Document::parse(text)?;
    let attribute = |a: roxmltree::Attribute| XmlAttribute {
        namespace: a.namespace().map(str::to_owned),
        name: a.name().to_owned(),
        value: a.value().to_owned(),
    };
    Ok(doc.descendants().map(|n| XmlNode {
        parent: n.parent().map(|p| p.id().get_usize()),
        element: n.is_element(),
        tag: n.tag_name().name().to_owned(),
        text: n.text().map(str::to_owned),
        attributes: n.attributes().map(attribute).collect(),
    }).collect())
}

/// Why a service could not be loaded.
#[derive(Debug)]
pub enum LoadError {
    /// The elements of the text lie too deep in one another.
    TooDeep,
    /// The text is no XML document.
    Malformed(roxmltree::Error),
    /// The document has no `<service>` element where one belongs.
    NoService,
}

// ---------------------------------------------------------------------------
// Reading a service out of a document
// ---------------------------------------------------------------------------

/// The node at `j` is an element called `tag` in the element at `p`.
pub open spec fn is_child(nodes: Seq<NodeModel>, p: int, tag: Seq<char>, j: int) -> bool {
    &&& 0 <= j < nodes.len()
    &&& nodes[j].parent matches Some(k) && k == p
    &&& nodes[j].element
    &&& nodes[j].tag == tag
}

/// The first place at or after `from` of an element called `tag` in the element
/// at `p`; the number of nodes if there is none.
pub open spec fn next_child(nodes: Seq<NodeModel>, p: int, tag: Seq<char>, from: int) -> int
    decreases nodes.len() - from,
{
    if from >= nodes.len() {
        nodes.len() as int
    } else if is_child(nodes, p, tag, from) {
        from
    } else {
        next_child(nodes, p, tag, from + 1)
    }
}

/// The first place at or after `from` of any element in the node at `p`.
pub open spec fn next_element(nodes: Seq<NodeModel>, p: int, from: int) -> int
    decreases nodes.len() - from,
{
    if from >= nodes.len() {
        nodes.len() as int
    } else if from >= 0 && nodes[from].parent == Some(p as usize) && nodes[from].element {
        from
    } else {
        next_element(nodes, p, from + 1)
    }
}

/// The text of the first element called `tag` in the element at `p`, without
/// whitespace at its ends; empty if there is no such element or no text in it.
pub open spec fn text_in(nodes: Seq<NodeModel>, p: int, tag: Seq<char>) -> Seq<char> {
    let j = next_child(nodes, p, tag, 0);
    if 0 <= j < nodes.len() {
        match nodes[j].text {
            Some(t) => trimmed(t),
            None => Seq::empty(),
        }
    } else {
        Seq::empty()
    }
}

/// The value of the attribute `name` without a namespace; `default` if there is
/// none.
pub open spec fn attribute_or(
    attributes: Seq<AttributeModel>,
    name: Seq<char>,
    default: Seq<char>,
) -> Seq<char>
    decreases attributes.len(),
{
    if attributes.len() == 0 {
        default
    } else if attributes[0].namespace is None && attributes[0].name == name {
        attributes[0].value
    } else {
        attribute_or(attributes.drop_first(), name, default)
    }
}

/// The configuration in the element at `j`, if its four numbers can be read.
pub open spec fn config_at(nodes: Seq<NodeModel>, j: int) -> Option<ConfigModel> {
    let a = nodes[j].attributes;
    let fps = parsed(attribute_or(a, "fps"@, "0"@), 0xFFFF_FFFF);
    let bitrate = parsed(text_in(nodes, j, "bitrate"@), u64::MAX as int);
    let audio = parsed(text_in(nodes, j, "audio-bitrate"@), u64::MAX as int);
    let keyframe = parsed(text_in(nodes, j, "keyframe-interval"@), 0xFFFF_FFFF);
    if fps is Some && bitrate is Some && audio is Some && keyframe is Some {
        Some(
            ConfigModel {
                resolution: attribute_or(a, "resolution"@, ""@),
                fps: fps->0 as u32,
                codec: attribute_or(a, "codec"@, ""@),
                bitrate: bitrate->0 as u64,
                audio_bitrate: audio->0 as u64,
                keyframe_interval: keyframe->0 as u32,
            },
        )
    } else {
        None
    }
}

/// The configurations in the profile at `p`, from the node at `from` on.
/// One with a number that cannot be read is left out.
pub open spec fn configs_from(nodes: Seq<NodeModel>, p: int, from: int) -> Seq<ConfigModel>
    decreases nodes.len() - from,
{
    if from >= nodes.len() {
        Seq::empty()
    } else {
        let rest = configs_from(nodes, p, from + 1);
        if is_child(nodes, p, "config"@, from) && config_at(nodes, from) is Some {
            seq![config_at(nodes, from)->0] + rest
        } else {
            rest
        }
    }
}

/// The profile in the element at `j`.
pub open spec fn profile_at(nodes: Seq<NodeModel>, j: int) -> ProfileModel {
    ProfileModel {
        name: text_in(nodes, j, "name"@),
        low_latency: next_child(nodes, j, "low-latency"@, 0) < nodes.len(),
        configs: configs_from(nodes, j, 0),
    }
}

/// The profiles in the element at `p`, from the node at `from` on.
pub open spec fn profiles_from(nodes: Seq<NodeModel>, p: int, from: int) -> Seq<ProfileModel>
    decreases nodes.len() - from,
{
    if from >= nodes.len() {
        Seq::empty()
    } else {
        let rest = profiles_from(nodes, p, from + 1);
        if is_child(nodes, p, "profile"@, from) {
            seq![profile_at(nodes, from)] + rest
        } else {
            rest
        }
    }
}

/// The server in the element at `j`.
pub open spec fn server_at(nodes: Seq<NodeModel>, j: int) -> ServerModel {
    ServerModel {
        name: text_in(nodes, j, "name"@),
        group: attribute_or(nodes[j].attributes, "group"@, "Default"@),
        url: text_in(nodes, j, "url"@),
    }
}

/// The servers in the element at `p`, from the node at `from` on.
pub open spec fn servers_from(nodes: Seq<NodeModel>, p: int, from: int) -> Seq<ServerModel>
    decreases nodes.len() - from,
{
    if from >= nodes.len() {
        Seq::empty()
    } else {
        let rest = servers_from(nodes, p, from + 1);
        if is_child(nodes, p, "server"@, from) {
            seq![server_at(nodes, from)] + rest
        } else {
            rest
        }
    }
}

/// The service in the element at `j`.
pub open spec fn service_at(nodes: Seq<NodeModel>, j: int) -> ServiceModel {
    let s = next_child(nodes, j, "servers"@, 0);
    let p = next_child(nodes, j, "profiles"@, 0);
    ServiceModel {
        name: text_in(nodes, j, "name"@),
        key: text_in(nodes, j, "key"@),
        servers: if s < nodes.len() {
            servers_from(nodes, s, 0)
        } else {
            Seq::empty()
        },
        profiles: if p < nodes.len() {
            profiles_from(nodes, p, 0)
        } else {
            Seq::empty()
        },
        default_profile: if p < nodes.len() {
            attribute_or(nodes[p].attributes, "default"@, ""@)
        } else {
            Seq::empty()
        },
    }
}

/// The service element of a document: its root element if that is called
/// `service`, or else the first element of that name in the root element.
pub open spec fn service_place(nodes: Seq<NodeModel>) -> Option<int> {
    let root = next_element(nodes, 0, 0);
    if root >= nodes.len() {
        None
    } else if nodes[root].tag == "service"@ {
        Some(root)
    } else {
        let j = next_child(nodes, root, "service"@, 0);
        if j < nodes.len() {
            Some(j)
        } else {
            None
        }
    }
}

fn is_child_exec(nodes: &Vec<XmlNode>, p: usize, tag: &str, j: usize) -> (r: bool)
    requires
        j < nodes@.len(),
    ensures
        r == is_child(node_models(nodes@), p as int, tag@, j as int),
{
    match nodes[j].parent {
        Some(k) => k == p && nodes[j].element && same(nodes[j].tag.as_str(), tag),
        None => false,
    }
}

fn find_child(nodes: &Vec<XmlNode>, p: usize, tag: &str) -> (r: usize)
    ensures
        r == next_child(node_models(nodes@), p as int, tag@, 0),
        r <= nodes@.len(),
{
    let mut j: usize = 0;
    while j < nodes.len()
        invariant
            j <= nodes@.len(),
            next_child(node_models(nodes@), p as int, tag@, j as int) == next_child(
                node_models(nodes@),
                p as int,
                tag@,
                0,
            ),
        decreases nodes@.len() - j,
    {
        if is_child_exec(nodes, p, tag, j) {
            return j;
        }
        j += 1;
    }
    j
}

fn child_text(nodes: &Vec<XmlNode>, p: usize, tag: &str) -> (r: String)
    ensures
        r@ == text_in(node_models(nodes@), p as int, tag@),
{
    let j: usize = find_child(nodes, p, tag);
    if j < nodes.len() {
        match &nodes[j].text {
            Some(t) => trim(t.as_str()),
            None => String::new(),
        }
    } else {
        String::new()
    }
}

fn attribute(node: &XmlNode, name: &str, default: &str) -> (r: String)
    ensures
        r@ == attribute_or(node@.attributes, name@, default@),
{
    let mut i: usize = 0;
    assert(node@.attributes.skip(0) == node@.attributes);
    while i < node.attributes.len()
        invariant
            i <= node.attributes@.len(),
            attribute_or(node@.attributes.skip(i as int), name@, default@) == attribute_or(
                node@.attributes,
                name@,
                default@,
            ),
        decreases node.attributes@.len() - i,
    {
        let a: &XmlAttribute = &node.attributes[i];
        assert(node@.attributes.skip(i as int)[0] == a@);
        assert(node@.attributes.skip(i as int).drop_first() == node@.attributes.skip(i + 1));
        if a.namespace.is_none() && same(a.name.as_str(), name) {
            return a.value.clone();
        }
        i += 1;
    }
    default.to_owned()
}

fn read_config(nodes: &Vec<XmlNode>, j: usize) -> (r: Option<StreamConfig>)
    requires
        j < nodes@.len(),
    ensures
        r is Some <==> config_at(node_models(nodes@), j as int) is Some,
        r matches Some(c) ==> config_at(node_models(nodes@), j as int) == Some(c@),
{
    let fps_text: String = attribute(&nodes[j], "fps", "0");
    let bitrate_text: String = child_text(nodes, j, "bitrate");
    let audio_text: String = child_text(nodes, j, "audio-bitrate");
    let keyframe_text: String = child_text(nodes, j, "keyframe-interval");
    let fps: Option<u32> = parse_u32(fps_text.as_str());
    let bitrate: Option<u64> = parse_u64(bitrate_text.as_str());
    let audio: Option<u64> = parse_u64(audio_text.as_str());
    let keyframe: Option<u32> = parse_u32(keyframe_text.as_str());
    match (fps, bitrate, audio, keyframe) {
        (Some(f), Some(b), Some(a), Some(k)) => Some(
            StreamConfig {
                resolution: attribute(&nodes[j], "resolution", ""),
                fps: f,
                codec: attribute(&nodes[j], "codec", ""),
                bitrate: b,
                audio_bitrate: a,
                keyframe_interval: k,
            },
        ),
        _ => None,
    }
}

/// The profile in the element at `j`.
pub fn parse_profile(nodes: &Vec<XmlNode>, j: usize) -> (r: StreamProfile)
    ensures
        r@ == profile_at(node_models(nodes@), j as int),
{
    let ghost m = node_models(nodes@);
    let mut configs: Vec<StreamConfig> = Vec::new();
    let mut i: usize = 0;
    let ghost done = Seq::<ConfigModel>::empty();
    while i < nodes.len()
        invariant
            i <= nodes@.len(),
            m == node_models(nodes@),
            done.len() == configs@.len(),
            forall|k: int| 0 <= k < done.len() ==> done[k] == (#[trigger] configs@[k])@,
            done + configs_from(m, j as int, i as int) == configs_from(m, j as int, 0),
        decreases nodes@.len() - i,
    {
        if is_child_exec(nodes, j, "config", i) {
            match read_config(nodes, i) {
                Some(c) => {
                    proof {
                        let rest = configs_from(m, j as int, i + 1);
                        assert(done.push(c@) + rest =~= done + (seq![c@] + rest));
                        done = done.push(c@);
                    }
                    configs.push(c);
                },
                None => {},
            }
        }
        i += 1;
    }
    assert(done =~= configs_from(m, j as int, 0));
    let low_latency: bool = find_child(nodes, j, "low-latency") < nodes.len();
    let r: StreamProfile = StreamProfile {
        name: child_text(nodes, j, "name"),
        low_latency,
        configs,
    };
    assert(r@.configs =~= done);
    r
}

fn read_servers(nodes: &Vec<XmlNode>, p: usize) -> (r: Vec<StreamServer>)
    ensures
        Seq::new(r@.len(), |i: int| r@[i]@) == servers_from(node_models(nodes@), p as int, 0),
{
    let ghost m = node_models(nodes@);
    let mut out: Vec<StreamServer> = Vec::new();
    let mut i: usize = 0;
    let ghost done = Seq::<ServerModel>::empty();
    while i < nodes.len()
        invariant
            i <= nodes@.len(),
            m == node_models(nodes@),
            done.len() == out@.len(),
            forall|k: int| 0 <= k < done.len() ==> done[k] == (#[trigger] out@[k])@,
            done + servers_from(m, p as int, i as int) == servers_from(m, p as int, 0),
        decreases nodes@.len() - i,
    {
        if is_child_exec(nodes, p, "server", i) {
            let s: StreamServer = StreamServer {
                name: child_text(nodes, i, "name"),
                group: attribute(&nodes[i], "group", "Default"),
                url: child_text(nodes, i, "url"),
            };
            proof {
                let rest = servers_from(m, p as int, i + 1);
                assert(done.push(s@) + rest =~= done + (seq![s@] + rest));
                done = done.push(s@);
            }
            out.push(s);
        }
        i += 1;
    }
    assert(done =~= servers_from(m, p as int, 0));
    assert(Seq::new(out@.len(), |i: int| out@[i]@) =~= done);
    out
}

fn read_profiles(nodes: &Vec<XmlNode>, p: usize) -> (r: Vec<StreamProfile>)
    ensures
        Seq::new(r@.len(), |i: int| r@[i]@) == profiles_from(node_models(nodes@), p as int, 0),
{
    let ghost m = node_models(nodes@);
    let mut out: Vec<StreamProfile> = Vec::new();
    let mut i: usize = 0;
    let ghost done = Seq::<ProfileModel>::empty();
    while i < nodes.len()
        invariant
            i <= nodes@.len(),
            m == node_models(nodes@),
            done.len() == out@.len(),
            forall|k: int| 0 <= k < done.len() ==> done[k] == (#[trigger] out@[k])@,
            done + profiles_from(m, p as int, i as int) == profiles_from(m, p as int, 0),
        decreases nodes@.len() - i,
    {
        if is_child_exec(nodes, p, "profile", i) {
            let f: StreamProfile = parse_profile(nodes, i);
            proof {
                let rest = profiles_from(m, p as int, i + 1);
                assert(done.push(f@) + rest =~= done + (seq![f@] + rest));
                done = done.push(f@);
            }
            out.push(f);
        }
        i += 1;
    }
    assert(done =~= profiles_from(m, p as int, 0));
    assert(Seq::new(out@.len(), |i: int| out@[i]@) =~= done);
    out
}

/// The service in the element at `j`.
pub fn parse_service(nodes: &Vec<XmlNode>, j: usize) -> (r: StreamService)
    ensures
        r@ == service_at(node_models(nodes@), j as int),
{
    let name: String = child_text(nodes, j, "name");
    let key: String = child_text(nodes, j, "key");
    let s: usize = find_child(nodes, j, "servers");
    let servers: Vec<StreamServer> = if s < nodes.len() {
        read_servers(nodes, s)
    } else {
        Vec::new()
    };
    let p: usize = find_child(nodes, j, "profiles");
    let mut profiles: Vec<StreamProfile> = Vec::new();
    let mut default_profile: String = String::new();
    if p < nodes.len() {
        default_profile = attribute(&nodes[p], "default", "");
        profiles = read_profiles(nodes, p);
    }
    let r: StreamService = StreamService { name, key, servers, profiles, default_profile };
    assert(r@.servers =~= service_at(node_models(nodes@), j as int).servers);
    assert(r@.profiles =~= service_at(node_models(nodes@), j as int).profiles);
    r
}

/// The service that the nodes of a document describe.
pub fn service_from_nodes(nodes: &Vec<XmlNode>) -> (r: Option<StreamService>)
    ensures
        r is Some <==> service_place(node_models(nodes@)) is Some,
        r matches Some(s) ==> s@ == service_at(
            node_models(nodes@),
            service_place(node_models(nodes@))->0,
        ),
{
    let ghost m = node_models(nodes@);
    let mut root: usize = 0;
    while root < nodes.len() && !(nodes[root].element && nodes[root].parent == Some(0usize))
        invariant
            root <= nodes@.len(),
            m == node_models(nodes@),
            next_element(m, 0, root as int) == next_element(m, 0, 0),
        decreases nodes@.len() - root,
    {
        root += 1;
    }
    if root == nodes.len() {
        return None;
    }
    if same(nodes[root].tag.as_str(), "service") {
        return Some(parse_service(nodes, root));
    }
    let j: usize = find_child(nodes, root, "service");
    if j < nodes.len() {
        Some(parse_service(nodes, j))
    } else {
        None
    }
}

/// The service that a service file describes.
pub fn load_service_text(text: &str) -> (r: Result<StreamService, LoadError>)
    ensures
        r matches Err(LoadError::TooDeep) <==> nesting(text@) > MAX_NESTING,
        r matches Err(LoadError::Malformed(_)) <==> nesting(text@) <= MAX_NESTING
            && document_nodes(text@) is None,
        nesting(text@) <= MAX_NESTING ==> (document_nodes(text@) matches Some(
            nodes,
        ) ==> match service_place(nodes) {
            Some(j) => r matches Ok(s) && s@ == service_at(nodes, j),
            None => r matches Err(LoadError::NoService),
        }),
{
    if deepest_nesting(text) > MAX_NESTING {
        return Err(LoadError::TooDeep);
    }
    match parse_document(text) {
        Ok(nodes) => match service_from_nodes(&nodes) {
            Some(s) => Ok(s),
            None => Err(LoadError::NoService),
        },
        Err(e) => Err(LoadError::Malformed(e)),
    }
}

} // verus!
