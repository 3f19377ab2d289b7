//! The base images that a box can be made from: the catalogue, where each image is fetched from,
//! and the picker.

use vstd::prelude::*;

use crate::json::Json;
#[allow(unused_imports)]
use crate::json::{jvs, JV};
use crate::outside::parse_toml;
#[allow(unused_imports)]
use crate::outside::toml_document;
use crate::loads::opt_jv;
use crate::text::{decimal, own, same, take_chars};
#[allow(unused_imports)]
use crate::text::{dec, first, strs};
use crate::types::{PickItem, PickNext};
#[allow(unused_imports)]
use crate::types::{next_v, pick_v, picks, NextV, PickV};
#[allow(unused_imports)]
use crate::app::pairs_v;

verus! {

/// A group of the catalogue: an image, and the tags that are offered of it.
#[derive(Debug)]
pub struct CatalogGroup {
    pub name: String,
    pub image: String,
    pub tags: Vec<String>,
}

/// What a group of the catalogue is.
#[verifier::ext_equal]
pub struct GroupV {
    pub name: Seq<char>,
    pub image: Seq<char>,
    pub tags: Seq<Seq<char>>,
}

impl CatalogGroup {
    pub open spec fn view(&self) -> GroupV {
        GroupV { name: self.name@, image: self.image@, tags: strs(self.tags@) }
    }
}

pub open spec fn groups_v(v: Seq<CatalogGroup>) -> Seq<GroupV> {
    v.map_values(|g: CatalogGroup| g@)
}

/// A place that an image can be fetched from, and how it was found.
#[derive(Debug)]
pub struct Candidate {
    pub reference: String,
    pub via: String,
}

/// Where an image is fetched from.
#[derive(Debug)]
pub struct Resolved {
    /// Why it may not be fetched.
    pub blocked: Option<String>,
    pub candidates: Vec<Candidate>,
}

/// What the host says of registries: the files it says so in, its short names, and where
/// references lead.
#[derive(Debug)]
pub struct ContainersConf {
    pub sources: Vec<String>,
    pub aliases: Vec<(String, String)>,
    pub resolved: Vec<(String, Resolved)>,
}

/// What is known of where a reference leads, by the entries from `i` on.
pub open spec fn lead(v: Seq<(String, Resolved)>, rf: Seq<char>, i: int) -> Option<Resolved>
    decreases v.len() - i,
{
    if i < 0 || i >= v.len() {
        None
    } else if v[i].0@ == rf {
        Some(v[i].1)
    } else {
        lead(v, rf, i + 1)
    }
}

/// Where a reference leads, in words.
pub open spec fn lead_text(r: Option<Resolved>) -> Seq<char> {
    match r {
        Some(x) => if x.candidates@.len() == 0 {
            "unresolvable"@
        } else if x.candidates@[0].via@.len() == 0 {
            x.candidates@[0].reference@
        } else {
            x.candidates@[0].reference@ + " ("@ + x.candidates@[0].via@ + ")"@
        },
        None => "unresolvable"@,
    }
}

/// At most sixty characters of a text.
pub open spec fn short(s: Seq<char>) -> Seq<char> {
    if s.len() > 60 { first(s, 59) + "…"@ } else { s }
}

impl ContainersConf {
    /// Where a reference leads, in words that fit on a line.
    pub open spec fn detail(self, rf: Seq<char>) -> Seq<char> {
        match lead(self.resolved@, rf, 0) {
            Some(r) => match r.blocked {
                Some(b) => "BLOCKED: "@ + b@,
                None => short(lead_text(Some(r))),
            },
            None => short(lead_text(None)),
        }
    }

    pub fn resolve(&self, rf: &str) -> (r: Option<&Resolved>)
        ensures
            match r {
                Some(x) => lead(self.resolved@, rf@, 0) == Some(*x),
                None => lead(self.resolved@, rf@, 0) is None,
            },
    {
        let mut i: usize = 0;
        while i < self.resolved.len()
            invariant
                i <= self.resolved@.len(),
                lead(self.resolved@, rf@, 0) == lead(self.resolved@, rf@, i as int),
            decreases self.resolved@.len() - i,
        {
            if same(self.resolved[i].0.as_str(), rf) {
                return Some(&self.resolved[i].1);
            }
            i += 1;
        }
        None
    }
}

/// Where a reference leads, in words that fit on a line.
pub fn resolve_detail(conf: &ContainersConf, rf: &str) -> (r: String)
    ensures
        r@ == conf.detail(rf@),
{
    let s: String = match conf.resolve(rf) {
        Some(x) => {
            match &x.blocked {
                Some(b) => {
                    return own("BLOCKED: ").concat(b.as_str());
                },
                None => {},
            }
            if x.candidates.len() == 0 {
                own("unresolvable")
            } else if x.candidates[0].via.as_str().is_empty() {
                x.candidates[0].reference.clone()
            } else {
                x.candidates[0].reference.clone().concat(" (").concat(x.candidates[0].via.as_str()).concat(")")
            }
        },
        None => own("unresolvable"),
    };
    if s.as_str().unicode_len() > 60 {
        take_chars(s.as_str(), 59).concat("…")
    } else {
        s
    }
}

/// The texts among values.
pub open spec fn texts_in(v: Seq<JV>) -> Seq<Seq<char>>
    decreases v.len(),
{
    if v.len() == 0 {
        Seq::empty()
    } else {
        match v.last().str() {
            Some(s) => texts_in(v.drop_last()).push(s),
            None => texts_in(v.drop_last()),
        }
    }
}

fn collect_texts(v: &Vec<Json>) -> (r: Vec<String>)
    ensures
        strs(r@) == texts_in(jvs(v@)),
{
    let ghost all = jvs(v@);
    let mut out: Vec<String> = Vec::new();
    let mut i: usize = 0;
    assert(strs(out@) =~= texts_in(all.take(0)));
    while i < v.len()
        invariant
            i <= v@.len(),
            all == jvs(v@),
            strs(out@) == texts_in(all.take(i as int)),
        decreases v@.len() - i,
    {
        let ghost t = all.take(i + 1);
        assert(t.drop_last() =~= all.take(i as int));
        assert(t.last() == v@[i as int]@);
        match v[i].as_str() {
            Some(s) => {
                let ghost o = strs(out@);
                out.push(own(s));
                assert(strs(out@) =~= o.push(s@));
            },
            None => {},
        }
        i += 1;
    }
    assert(all.take(all.len() as int) =~= all);
    out
}

/// A group as it is written: nothing where its name or its image is missing.
pub open spec fn group_of(g: JV) -> Option<GroupV> {
    match (g.get_str("name"@), g.get_str("image"@)) {
        (Some(name), Some(image)) => Some(
            GroupV {
                name,
                image,
                tags: match g.get_arr("tags"@) {
                    Some(a) => texts_in(a),
                    None => seq!["latest"@],
                },
            },
        ),
        _ => None,
    }
}

/// The groups among values.
pub open spec fn groups_in(v: Seq<JV>) -> Seq<GroupV>
    decreases v.len(),
{
    if v.len() == 0 {
        Seq::empty()
    } else {
        match group_of(v.last()) {
            Some(g) => groups_in(v.drop_last()).push(g),
            None => groups_in(v.drop_last()),
        }
    }
}

/// The groups that there are without a catalogue of the user's.
pub open spec fn built_in() -> Seq<GroupV> {
    seq![
        GroupV { name: "Ubuntu"@, image: "ubuntu"@, tags: seq!["24.04"@, "22.04"@, "latest"@] },
        GroupV { name: "Debian"@, image: "debian"@, tags: seq!["12"@, "stable-slim"@, "latest"@] },
        GroupV { name: "Alpine"@, image: "alpine"@, tags: seq!["3.21"@, "3.20"@, "latest"@] },
        GroupV { name: "Fedora"@, image: "fedora"@, tags: seq!["42"@, "41"@, "latest"@] },
        GroupV { name: "Rocky Linux"@, image: "rockylinux"@, tags: seq!["9"@, "8"@] },
        GroupV { name: "BusyBox"@, image: "busybox"@, tags: seq!["latest"@, "musl"@] },
    ]
}

/// The catalogue that a document is: the built-in one where it holds no group.
pub open spec fn catalog_of(doc: Option<JV>) -> Seq<GroupV> {
    let own_groups = match doc {
        Some(d) => match d.get_arr("group"@) {
            Some(a) => groups_in(a),
            None => Seq::empty(),
        },
        None => Seq::empty(),
    };
    if own_groups.len() > 0 { own_groups } else { built_in() }
}

fn read_group(g: &Json) -> (r: Option<CatalogGroup>)
    ensures
        match r {
            Some(x) => group_of(g@) == Some(x@),
            None => group_of(g@) is None,
        },
{
    match (g.get_str("name"), g.get_str("image")) {
        (Some(name), Some(image)) => {
            let tags: Vec<String> = match g.get_arr("tags") {
                Some(a) => collect_texts(a),
                None => {
                    let v: Vec<String> = vec![own("latest")];
                    assert(strs(v@) =~= seq!["latest"@]);
                    v
                },
            };
            let x: CatalogGroup = CatalogGroup { name: own(name), image: own(image), tags };
            assert(group_of(g@)->0 =~= x@);
            Some(x)
        },
        _ => None,
    }
}

fn read_groups(v: &Vec<Json>) -> (r: Vec<CatalogGroup>)
    ensures
        groups_v(r@) == groups_in(jvs(v@)),
{
    let ghost all = jvs(v@);
    let mut out: Vec<CatalogGroup> = Vec::new();
    let mut i: usize = 0;
    assert(groups_v(out@) =~= groups_in(all.take(0)));
    while i < v.len()
        invariant
            i <= v@.len(),
            all == jvs(v@),
            groups_v(out@) == groups_in(all.take(i as int)),
        decreases v@.len() - i,
    {
        let ghost t = all.take(i + 1);
        assert(t.drop_last() =~= all.take(i as int));
        assert(t.last() == v@[i as int]@);
        match read_group(&v[i]) {
            Some(g) => {
                let ghost o = groups_v(out@);
                out.push(g);
                assert(groups_v(out@) =~= o.push(g@));
            },
            None => {},
        }
        i += 1;
    }
    assert(all.take(all.len() as int) =~= all);
    out
}

fn group2(name: &str, image: &str, a: &str, b: &str) -> (r: CatalogGroup)
    ensures
        r@ == (GroupV { name: name@, image: image@, tags: seq![a@, b@] }),
{
    let r: CatalogGroup = CatalogGroup { name: own(name), image: own(image), tags: vec![own(a), own(b)] };
    assert(r@.tags =~= seq![a@, b@]);
    r
}

fn group3(name: &str, image: &str, a: &str, b: &str, c: &str) -> (r: CatalogGroup)
    ensures
        r@ == (GroupV { name: name@, image: image@, tags: seq![a@, b@, c@] }),
{
    let r: CatalogGroup = CatalogGroup { name: own(name), image: own(image), tags: vec![own(a), own(b), own(c)] };
    assert(r@.tags =~= seq![a@, b@, c@]);
    r
}

/// The catalogue that a document is.
pub fn catalog_from(doc: &Option<Json>) -> (r: Vec<CatalogGroup>)
    ensures
        groups_v(r@) == catalog_of(opt_jv(*doc)),
{
    match doc {
        Some(d) => {
            match d.get_arr("group") {
                Some(a) => {
                    let v: Vec<CatalogGroup> = read_groups(a);
                    assert(groups_v(v@).len() == v@.len());
                    if v.len() > 0 {
                        return v;
                    }
                },
                None => {},
            }
        },
        None => {},
    }
    let v: Vec<CatalogGroup> = vec![
        group3("Ubuntu", "ubuntu", "24.04", "22.04", "latest"),
        group3("Debian", "debian", "12", "stable-slim", "latest"),
        group3("Alpine", "alpine", "3.21", "3.20", "latest"),
        group3("Fedora", "fedora", "42", "41", "latest"),
        group2("Rocky Linux", "rockylinux", "9", "8"),
        group2("BusyBox", "busybox", "latest", "musl"),
    ];
    assert(groups_v(v@) =~= built_in());
    v
}

/// The catalogue: that of the user's file, or the built-in one.
pub fn image_catalog(file: Option<String>) -> (r: Vec<CatalogGroup>)
    ensures
        groups_v(r@) == catalog_of(
            match file {
                Some(s) => toml_document(s@),
                None => None,
            },
        ),
{
    match file {
        Some(s) => {
            let doc: Option<Json> = parse_toml(s.as_str());
            catalog_from(&doc)
        },
        None => catalog_from(&None),
    }
}

/// An entry of the picker.
pub open spec fn entry(label: Seq<char>, detail: Seq<char>, next: NextV) -> PickV {
    PickV { label, detail, next }
}

fn menu_entry(label: String, detail: String, items: Vec<PickItem>) -> (r: PickItem)
    ensures
        pick_v(r) == entry(label@, detail@, NextV::Menu(picks(items@))),
{
    let next: PickNext = PickNext::Menu(items);
    assert(next_v(next)->Menu_0 =~= picks(items@));
    PickItem { label, detail, next }
}

/// The entry of a tag of an image.
pub open spec fn tag_entry(conf: ContainersConf, image: Seq<char>, tag: Seq<char>) -> PickV {
    let rf = image + ":"@ + tag;
    entry(rf, conf.detail(rf), NextV::Pull(rf))
}

fn entry_of_tag(conf: &ContainersConf, image: &str, tag: &str) -> (r: PickItem)
    ensures
        pick_v(r) == tag_entry(*conf, image@, tag@),
{
    let rf: String = own(image).concat(":").concat(tag);
    let detail: String = resolve_detail(conf, rf.as_str());
    PickItem { label: rf.clone(), detail, next: PickNext::Pull(rf) }
}

/// The entry for another tag of an image.
pub open spec fn other_tag(image: Seq<char>, label: Seq<char>) -> PickV {
    entry(image + label, "type a tag"@, NextV::EnterRef(image + ":"@))
}

fn entry_of_other(image: &str, label: &str) -> (r: PickItem)
    ensures
        pick_v(r) == other_tag(image@, label@),
{
    PickItem {
        label: own(image).concat(label),
        detail: own("type a tag"),
        next: PickNext::EnterRef(own(image).concat(":")),
    }
}

/// The entry of a group: its tags, and another one.
pub open spec fn group_entry(conf: ContainersConf, g: GroupV) -> PickV {
    let tag = if g.tags.len() > 0 { g.tags[0] } else { "latest"@ };
    entry(
        g.name,
        conf.detail(g.image + ":"@ + tag),
        NextV::Menu(
            g.tags.map_values(|t: Seq<char>| tag_entry(conf, g.image, t)).push(other_tag(g.image, ":<other tag>…"@)),
        ),
    )
}

fn entry_of_group(conf: &ContainersConf, g: &CatalogGroup) -> (r: PickItem)
    ensures
        pick_v(r) == group_entry(*conf, g@),
{
    let ghost tags = strs(g.tags@);
    let ghost all = tags.map_values(|t: Seq<char>| tag_entry(*conf, g.image@, t));
    assert(tags.len() == g.tags@.len());
    let mut items: Vec<PickItem> = Vec::new();
    let mut i: usize = 0;
    while i < g.tags.len()
        invariant
            i <= g.tags@.len() == tags.len(),
            tags == strs(g.tags@),
            all == tags.map_values(|t: Seq<char>| tag_entry(*conf, g.image@, t)),
            picks(items@) == all.take(i as int),
        decreases g.tags@.len() - i,
    {
        assert(tags[i as int] == g.tags@[i as int]@);
        let ghost o = picks(items@);
        items.push(entry_of_tag(conf, g.image.as_str(), g.tags[i].as_str()));
        assert(picks(items@) =~= o.push(all[i as int]));
        i += 1;
        assert(picks(items@) =~= all.take(i as int));
    }
    assert(all.take(all.len() as int) =~= all);
    items.push(entry_of_other(g.image.as_str(), ":<other tag>…"));
    assert(picks(items@) =~= all.push(other_tag(g.image@, ":<other tag>…"@)));
    let first_tag: &str = if g.tags.len() > 0 { g.tags[0].as_str() } else { "latest" };
    assert(tags.len() > 0 ==> tags[0] == first_tag@);
    let rf: String = g.image.clone().concat(":").concat(first_tag);
    menu_entry(g.name.clone(), resolve_detail(conf, rf.as_str()), items)
}

/// The entry of a short name.
pub open spec fn alias_entry(conf: ContainersConf, a: (Seq<char>, Seq<char>)) -> PickV {
    entry(
        a.0,
        "→ "@ + a.1,
        NextV::Menu(seq![tag_entry(conf, a.0, "latest"@), other_tag(a.0, ":<tag>…"@)]),
    )
}

fn entry_of_alias(conf: &ContainersConf, short_name: &str, target: &str) -> (r: PickItem)
    ensures
        pick_v(r) == alias_entry(*conf, (short_name@, target@)),
{
    let items: Vec<PickItem> = vec![
        entry_of_tag(conf, short_name, "latest"),
        entry_of_other(short_name, ":<tag>…"),
    ];
    assert(picks(items@) =~= seq![tag_entry(*conf, short_name@, "latest"@), other_tag(short_name@, ":<tag>…"@)]);
    menu_entry(own(short_name), own("→ ").concat(target), items)
}

/// The entry of a loaded image.
pub open spec fn local_entry(l: (Seq<char>, Seq<char>)) -> PickV {
    entry(l.0, l.1 + " · loaded — Enter: container shell"@, NextV::RunLocal(l.0))
}

/// The entry that leads to the loaded images, where there are any.
pub open spec fn local_part(local: Seq<(Seq<char>, Seq<char>)>) -> Seq<PickV> {
    if local.len() == 0 {
        Seq::empty()
    } else {
        seq![
            entry(
                "Loaded images ("@ + dec(local.len() as int) + ")"@,
                "already installed — start a container, no pull"@,
                NextV::Menu(local.map_values(|l: (Seq<char>, Seq<char>)| local_entry(l))),
            ),
        ]
    }
}

/// The entry that leads to the short names, where there are any.
pub open spec fn alias_part(conf: ContainersConf) -> Seq<PickV> {
    let aliases = pairs_v(conf.aliases@);
    if aliases.len() == 0 {
        Seq::empty()
    } else {
        seq![
            entry(
                "Short names ("@ + dec(aliases.len() as int) + ") — registries.conf"@,
                "aliases from /etc/containers"@,
                NextV::Menu(aliases.map_values(|a: (Seq<char>, Seq<char>)| alias_entry(conf, a))),
            ),
        ]
    }
}

/// The first level of the picker.
pub open spec fn picker(conf: ContainersConf, groups: Seq<GroupV>, local: Seq<(Seq<char>, Seq<char>)>) -> Seq<PickV> {
    (local_part(local) + groups.map_values(|g: GroupV| group_entry(conf, g)) + alias_part(conf)).push(
        entry(
            "Enter reference…"@,
            "e.g. ghcr.io/org/img:tag or oci-archive:/path.tar"@,
            NextV::EnterRef(Seq::empty()),
        ),
    )
}

fn local_items(local: &Vec<(String, String)>) -> (r: Vec<PickItem>)
    ensures
        picks(r@) == pairs_v(local@).map_values(|l: (Seq<char>, Seq<char>)| local_entry(l)),
{
    let ghost all = pairs_v(local@).map_values(|l: (Seq<char>, Seq<char>)| local_entry(l));
    let mut items: Vec<PickItem> = Vec::new();
    let mut i: usize = 0;
    while i < local.len()
        invariant
            i <= local@.len() == all.len(),
            all == pairs_v(local@).map_values(|l: (Seq<char>, Seq<char>)| local_entry(l)),
            picks(items@) == all.take(i as int),
        decreases local@.len() - i,
    {
        assert(pairs_v(local@)[i as int] == (local@[i as int].0@, local@[i as int].1@));
        let ghost o = picks(items@);
        items.push(
            PickItem {
                label: local[i].0.clone(),
                detail: local[i].1.clone().concat(" · loaded — Enter: container shell"),
                next: PickNext::RunLocal(local[i].0.clone()),
            },
        );
        assert(picks(items@) =~= o.push(all[i as int]));
        i += 1;
        assert(picks(items@) =~= all.take(i as int));
    }
    assert(all.take(all.len() as int) =~= all);
    items
}

fn alias_items(conf: &ContainersConf) -> (r: Vec<PickItem>)
    ensures
        picks(r@) == pairs_v(conf.aliases@).map_values(|a: (Seq<char>, Seq<char>)| alias_entry(*conf, a)),
{
    let ghost all = pairs_v(conf.aliases@).map_values(|a: (Seq<char>, Seq<char>)| alias_entry(*conf, a));
    let mut items: Vec<PickItem> = Vec::new();
    let mut i: usize = 0;
    while i < conf.aliases.len()
        invariant
            i <= conf.aliases@.len() == all.len(),
            all == pairs_v(conf.aliases@).map_values(|a: (Seq<char>, Seq<char>)| alias_entry(*conf, a)),
            picks(items@) == all.take(i as int),
        decreases conf.aliases@.len() - i,
    {
        assert(pairs_v(conf.aliases@)[i as int] == (conf.aliases@[i as int].0@, conf.aliases@[i as int].1@));
        let ghost o = picks(items@);
        items.push(entry_of_alias(conf, conf.aliases[i].0.as_str(), conf.aliases[i].1.as_str()));
        assert(picks(items@) =~= o.push(all[i as int]));
        i += 1;
        assert(picks(items@) =~= all.take(i as int));
    }
    assert(all.take(all.len() as int) =~= all);
    items
}

/// The first level of the picker: loaded images, the catalogue, short names, and any reference.
pub fn build_image_picker(conf: &ContainersConf, catalog: &Vec<CatalogGroup>, local: &Vec<(String, String)>) -> (r: Vec<
    PickItem,
>)
    ensures
        picks(r@) == picker(*conf, groups_v(catalog@), pairs_v(local@)),
{
    let mut top: Vec<PickItem> = Vec::new();
    assert(pairs_v(local@).len() == local@.len());
    if local.len() > 0 {
        let label: String = own("Loaded images (").concat(decimal(local.len() as u64).as_str()).concat(")");
        top.push(menu_entry(label, own("already installed — start a container, no pull"), local_items(local)));
    }
    let ghost head = local_part(pairs_v(local@));
    assert(picks(top@) =~= head);
    let ghost all = groups_v(catalog@).map_values(|g: GroupV| group_entry(*conf, g));
    assert(head + all.take(0) =~= head);
    let mut i: usize = 0;
    while i < catalog.len()
        invariant
            i <= catalog@.len() == all.len(),
            all == groups_v(catalog@).map_values(|g: GroupV| group_entry(*conf, g)),
            picks(top@) == head + all.take(i as int),
        decreases catalog@.len() - i,
    {
        assert(groups_v(catalog@)[i as int] == catalog@[i as int]@);
        let ghost o = picks(top@);
        top.push(entry_of_group(conf, &catalog[i]));
        assert(picks(top@) =~= o.push(all[i as int]));
        i += 1;
        assert(picks(top@) =~= head + all.take(i as int));
    }
    assert(all.take(all.len() as int) =~= all);
    assert(pairs_v(conf.aliases@).len() == conf.aliases@.len());
    if conf.aliases.len() > 0 {
        let label: String = own("Short names (").concat(decimal(conf.aliases.len() as u64).as_str()).concat(
            ") — registries.conf",
        );
        top.push(menu_entry(label, own("aliases from /etc/containers"), alias_items(conf)));
    }
    assert(picks(top@) =~= head + all + alias_part(*conf));
    let empty: String = String::new();
    assert(empty@ =~= Seq::<char>::empty());
    top.push(
        PickItem {
            label: own("Enter reference…"),
            detail: own("e.g. ghcr.io/org/img:tag or oci-archive:/path.tar"),
            next: PickNext::EnterRef(empty),
        },
    );
    assert(picks(top@) =~= picker(*conf, groups_v(catalog@), pairs_v(local@)));
    top
}

/// The references of a group that the picker shows.
pub open spec fn group_refs(g: GroupV) -> Seq<Seq<char>> {
    if g.tags.len() == 0 {
        seq![g.image + ":"@ + "latest"@]
    } else {
        g.tags.map_values(|t: Seq<char>| g.image + ":"@ + t)
    }
}

/// The references of groups that the picker shows.
pub open spec fn catalog_refs(groups: Seq<GroupV>) -> Seq<Seq<char>>
    decreases groups.len(),
{
    if groups.len() == 0 {
        Seq::empty()
    } else {
        catalog_refs(groups.drop_last()) + group_refs(groups.last())
    }
}

fn refs_of_group(g: &CatalogGroup) -> (r: Vec<String>)
    ensures
        strs(r@) == group_refs(g@),
{
    let mut out: Vec<String> = Vec::new();
    assert(g@.tags.len() == g.tags@.len());
    if g.tags.len() == 0 {
        out.push(g.image.clone().concat(":").concat("latest"));
        assert(strs(out@) =~= group_refs(g@));
        return out;
    }
    let mut i: usize = 0;
    while i < g.tags.len()
        invariant
            i <= g.tags@.len() == g@.tags.len(),
            out@.len() == i,
            forall|k: int| 0 <= k < i ==> (#[trigger] out@[k])@ == g.image@ + ":"@ + g.tags@[k]@,
        decreases g.tags@.len() - i,
    {
        out.push(g.image.clone().concat(":").concat(g.tags[i].as_str()));
        i += 1;
    }
    assert(strs(out@) =~= group_refs(g@));
    out
}

/// The references whose ways have to be known before the picker can be made.
pub fn wanted_refs(catalog: &Vec<CatalogGroup>, aliases: &Vec<(String, String)>) -> (r: Vec<String>)
    ensures
        strs(r@) == catalog_refs(groups_v(catalog@)) + pairs_v(aliases@).map_values(
            |a: (Seq<char>, Seq<char>)| a.0 + ":"@ + "latest"@,
        ),
{
    let ghost all = groups_v(catalog@);
    let mut out: Vec<String> = Vec::new();
    let mut i: usize = 0;
    assert(strs(out@) =~= catalog_refs(all.take(0)));
    while i < catalog.len()
        invariant
            i <= catalog@.len(),
            all == groups_v(catalog@),
            strs(out@) == catalog_refs(all.take(i as int)),
        decreases catalog@.len() - i,
    {
        let ghost t = all.take(i + 1);
        assert(t.drop_last() =~= all.take(i as int));
        assert(t.last() == catalog@[i as int]@);
        let ghost o = strs(out@);
        let mut more: Vec<String> = refs_of_group(&catalog[i]);
        let ghost m = strs(more@);
        out.append(&mut more);
        assert(strs(out@) =~= o + m);
        i += 1;
    }
    assert(all.take(all.len() as int) =~= all);
    let ghost head = strs(out@);
    let ghost tail = pairs_v(aliases@).map_values(|a: (Seq<char>, Seq<char>)| a.0 + ":"@ + "latest"@);
    let mut k: usize = 0;
    assert(head + tail.take(0) =~= head);
    while k < aliases.len()
        invariant
            k <= aliases@.len() == tail.len(),
            tail == pairs_v(aliases@).map_values(|a: (Seq<char>, Seq<char>)| a.0 + ":"@ + "latest"@),
            strs(out@) == head + tail.take(k as int),
        decreases aliases@.len() - k,
    {
        assert(pairs_v(aliases@)[k as int] == (aliases@[k as int].0@, aliases@[k as int].1@));
        let ghost o = strs(out@);
        out.push(aliases[k].0.clone().concat(":").concat("latest"));
        assert(strs(out@) =~= o.push(tail[k as int]));
        k += 1;
        assert(strs(out@) =~= head + tail.take(k as int));
    }
    assert(tail.take(tail.len() as int) =~= tail);
    out
}

/// The picker always ends with the entry for any reference.
pub proof fn law_any_reference_can_be_entered(conf: ContainersConf, groups: Seq<GroupV>, local: Seq<(Seq<char>, Seq<char>)>)
    ensures
        picker(conf, groups, local).len() > 0,
        picker(conf, groups, local).last().next == NextV::EnterRef(Seq::empty()),
{
}

} // verus!
