//! What goes on beside the keys: fetching images, asking for models, testing an endpoint.

use vstd::prelude::*;

use crate::app::{App, Jobs, Op, Side, Step, Then, Ui};
#[allow(unused_imports)]
use crate::app::{pairs_v, StepV};
use crate::images::{build_image_picker, CatalogGroup, ContainersConf};
#[allow(unused_imports)]
use crate::images::{groups_v, picker};
use crate::json::{list0, Json};
#[allow(unused_imports)]
use crate::json::{jvs, JV};
#[allow(unused_imports)]
use crate::lists::rep_v;
use crate::outside::debug_text;
#[allow(unused_imports)]
use crate::outside::quoted_text;
use crate::text::{decimal, decimal_signed, join, own, same, trim};
#[allow(unused_imports)]
use crate::text::{dec, joined, sdec, strs, trimmed};
use crate::types::{ApiField, LoadJob, Modal, ModelRow, PickLevel};
#[allow(unused_imports)]
use crate::types::{levels_v, modal_v, models_v, LevelV, ModalV, ModelV};

verus! {

/// The lines that tell of the endpoint where no call has been made: what it is, or how to get
/// one.
pub open spec fn endpoint_note(resolved: Option<(Seq<char>, Seq<char>)>) -> Seq<Seq<char>> {
    match resolved {
        Some((model, base_url)) => seq![
            "(no API calls yet)"@,
            "endpoint: "@ + base_url,
            "model:    "@ + model,
            ""@,
            "calls appear here for boxes launched with --api"@,
            "(e.g. `sarun oaita run NAME`)"@,
        ],
        None => seq![
            "(no endpoint configured — nothing to log yet)"@,
            ""@,
            "F4 → \"Configure an external API\" edits base_url / model / key (with a"@,
            "connection test) and writes oaita.toml — the in-UI way to point at any"@,
            "OpenAI-compatible server."@,
            ""@,
            "F4 → \"Pick a local model\" instead downloads a model in a box and serves"@,
            "it on demand — no external endpoint or key needed. Opens automatically the"@,
            "first time."@,
        ],
    }
}

/// The model and the address of an endpoint.
pub open spec fn endpoint_v(r: Option<(String, String)>) -> Option<(Seq<char>, Seq<char>)> {
    match r {
        Some((m, b)) => Some((m@, b@)),
        None => None,
    }
}

pub fn endpoint_note_lines(resolved: Option<(String, String)>) -> (r: Vec<String>)
    ensures
        strs(r@) == endpoint_note(endpoint_v(resolved)),
{
    match resolved {
        Some((model, base_url)) => {
            let v: Vec<String> = vec![
                own("(no API calls yet)"),
                own("endpoint: ").concat(base_url.as_str()),
                own("model:    ").concat(model.as_str()),
                own(""),
                own("calls appear here for boxes launched with --api"),
                own("(e.g. `sarun oaita run NAME`)"),
            ];
            assert(strs(v@) =~= endpoint_note(Some((model@, base_url@))));
            v
        },
        None => {
            let v: Vec<String> = vec![
                own("(no endpoint configured — nothing to log yet)"),
                own(""),
                own("F4 → \"Configure an external API\" edits base_url / model / key (with a"),
                own("connection test) and writes oaita.toml — the in-UI way to point at any"),
                own("OpenAI-compatible server."),
                own(""),
                own("F4 → \"Pick a local model\" instead downloads a model in a box and serves"),
                own("it on demand — no external endpoint or key needed. Opens automatically the"),
                own("first time."),
            ];
            assert(strs(v@) =~= endpoint_note(None));
            v
        },
    }
}

/// The turning sign of something that is under way.
pub open spec fn spinner(i: int) -> Seq<char> {
    let k = (i / 2) % 8;
    if k == 0 {
        "⠋"@
    } else if k == 1 {
        "⠙"@
    } else if k == 2 {
        "⠹"@
    } else if k == 3 {
        "⠸"@
    } else if k == 4 {
        "⠼"@
    } else if k == 5 {
        "⠴"@
    } else if k == 6 {
        "⠦"@
    } else {
        "⠧"@
    }
}

fn spinner_frame(i: usize) -> (r: &'static str)
    ensures
        r@ == spinner(i as int),
{
    let k: usize = (i / 2) % 8;
    if k == 0 {
        "⠋"
    } else if k == 1 {
        "⠙"
    } else if k == 2 {
        "⠹"
    } else if k == 3 {
        "⠸"
    } else if k == 4 {
        "⠼"
    } else if k == 5 {
        "⠴"
    } else if k == 6 {
        "⠦"
    } else {
        "⠧"
    }
}

/// What is said of an image that was fetched.
pub open spec fn loaded_text(label: Seq<char>, j: JV) -> Seq<char> {
    "loaded '"@ + label + "' → box '"@ + j.str_or("top_name"@, "?"@) + "' ("@ + sdec(j.i64_or("n_layers"@, 0))
        + " layers) · Pty+ → \"Container from image…\" to start it"@
}

/// A model as it is sent: nothing where its name or its address is missing.
pub open spec fn model_of(m: JV) -> Option<ModelV> {
    match (m.get_str("name"@), m.get_str("url"@)) {
        (Some(name), Some(url)) => Some(ModelV { name, url, note: m.str_or("note"@, ""@) }),
        _ => None,
    }
}

/// The models among values.
pub open spec fn models_in(v: Seq<JV>) -> Seq<ModelV>
    decreases v.len(),
{
    if v.len() == 0 {
        Seq::empty()
    } else {
        match model_of(v.last()) {
            Some(m) => models_in(v.drop_last()).push(m),
            None => models_in(v.drop_last()),
        }
    }
}

/// The models that an answer holds.
pub open spec fn models_of(j: JV) -> Seq<ModelV> {
    match j.get_arr("models"@) {
        Some(a) => models_in(a),
        None => Seq::empty(),
    }
}

fn read_models(j: &Json) -> (r: Vec<ModelRow>)
    ensures
        models_v(r@) == models_of(j@),
{
    let mut out: Vec<ModelRow> = Vec::new();
    match j.get_arr("models") {
        Some(v) => {
            let ghost all = jvs(v@);
            let mut i: usize = 0;
            assert(models_v(out@) =~= models_in(all.take(0)));
            while i < v.len()
                invariant
                    i <= v@.len(),
                    all == jvs(v@),
                    models_v(out@) == models_in(all.take(i as int)),
                decreases v@.len() - i,
            {
                let ghost t = all.take(i + 1);
                assert(t.drop_last() =~= all.take(i as int));
                assert(t.last() == v@[i as int]@);
                match (v[i].get_str("name"), v[i].get_str("url")) {
                    (Some(name), Some(url)) => {
                        let ghost o = models_v(out@);
                        out.push(ModelRow { name: own(name), url: own(url), note: own(v[i].str_or("note", "")) });
                        assert(models_v(out@) =~= o.push(model_of(t.last())->0));
                    },
                    _ => {},
                }
                i += 1;
            }
            assert(all.take(all.len() as int) =~= all);
        },
        None => {
            assert(models_v(out@) =~= Seq::<ModelV>::empty());
        },
    }
    out
}

/// The endpoint as it is written to its file: the address and the key only where there are any.
pub open spec fn endpoint_file(base_url: Seq<char>, model: Seq<char>, api_key: Seq<char>) -> Seq<char> {
    "model = "@ + quoted_text(trimmed(model)) + "\n"@ + (if trimmed(base_url).len() > 0 {
        "base_url = "@ + quoted_text(trimmed(base_url)) + "\n"@
    } else {
        Seq::empty()
    }) + (if trimmed(api_key).len() > 0 { "api_key = "@ + quoted_text(trimmed(api_key)) + "\n"@ } else { Seq::empty() })
}

fn file_of_endpoint(base_url: &str, model: &str, api_key: &str) -> (r: String)
    ensures
        r@ == endpoint_file(base_url@, model@, api_key@),
{
    let mut s: String = own("model = ").concat(debug_text(trim(model).as_str()).as_str()).concat("\n");
    let b: String = trim(base_url);
    let k: String = trim(api_key);
    let ghost head = s@;
    if !b.as_str().is_empty() {
        let line: String = own("base_url = ").concat(debug_text(b.as_str()).as_str()).concat("\n");
        s = s.concat(line.as_str());
    }
    let ghost mid = s@;
    if !k.as_str().is_empty() {
        let line: String = own("api_key = ").concat(debug_text(k.as_str()).as_str()).concat("\n");
        s = s.concat(line.as_str());
    }
    assert(s@ =~= endpoint_file(base_url@, model@, api_key@));
    s
}

impl App {
    /// Asks for what the image picker is made from.
    pub fn open_image_picker(&mut self)
        ensures
            *final(self) == (App { todo: final(self).todo, ..*old(self) }),
            final(self).plan() == seq![StepV::ReadImageConf] + old(self).plan(),
    {
        self.first(Step::ReadImageConf);
    }

    /// Opens the image picker.
    pub fn images_read(&mut self, conf: &ContainersConf, catalog: &Vec<CatalogGroup>)
        ensures
            *final(self) == (App {
                ui: (Ui { modal: final(self).ui.modal, status: final(self).ui.status, ..old(self).ui }),
                ..*old(self)
            }),
            modal_v(final(self).ui.modal) == Some(
                ModalV::ImagePicker {
                    crumbs: Seq::empty(),
                    stack: seq![
                        LevelV { items: picker(*conf, groups_v(catalog@), pairs_v(old(self).boxes.images@)), sel: 0 },
                    ],
                },
            ),
            final(self).ui.status@ == (if conf.sources@.len() == 0 {
                "image picker · no /etc/containers/registries.conf — docker.io defaults"@
            } else {
                "image picker · registries.conf: "@ + joined(strs(conf.sources@), ", "@)
            }),
    {
        let items: Vec<crate::types::PickItem> = build_image_picker(conf, catalog, &self.boxes.images);
        let crumbs: Vec<String> = Vec::new();
        let stack: Vec<PickLevel> = vec![PickLevel { items, sel: 0 }];
        assert(strs(crumbs@) =~= Seq::<Seq<char>>::empty());
        assert(levels_v(stack@) =~= seq![
            LevelV { items: picker(*conf, groups_v(catalog@), pairs_v(self.boxes.images@)), sel: 0 },
        ]);
        self.ui.modal = Some(Modal::ImagePicker { crumbs, stack });
        if conf.sources.len() == 0 {
            self.say("image picker · no /etc/containers/registries.conf — docker.io defaults");
        } else {
            let s: String = own("image picker · registries.conf: ").concat(join(&conf.sources, ", ").as_str());
            self.say(s.as_str());
        }
    }

    /// What beginning to fetch an image changes.
    pub open spec fn start_image_load_v(self, reference: Seq<char>, post: App) -> bool {
        match self.jobs.load {
            Some(_) => self.says(post, "an image load is already running"@),
            None => {
                &&& post == (App { jobs: (Jobs { load: post.jobs.load, ..self.jobs }), todo: post.todo, ..self })
                &&& match post.jobs.load {
                    Some(l) => l.label@ == reference && l.spin == 0,
                    None => false,
                }
                &&& post.plan() == seq![StepV::LoadImage(reference)] + self.plan()
            },
        }
    }

    /// Begins to fetch an image, unless one is being fetched.
    pub fn start_image_load(&mut self, reference: String)
        ensures
            old(self).start_image_load_v(reference@, *final(self)),
    {
        if self.jobs.load.is_some() {
            self.say("an image load is already running");
            return;
        }
        self.jobs.load = Some(LoadJob { label: reference.clone(), spin: 0 });
        self.first(Step::LoadImage(reference));
    }

    /// What an image that was fetched, or not, changes.
    pub open spec fn image_loaded_v(self, r: Result<JV, Seq<char>>, post: App) -> bool {
        match self.jobs.load {
            None => post == self,
            Some(l) => {
                &&& post == (App {
                    jobs: (Jobs { load: None, ..self.jobs }),
                    ui: (Ui { status: post.ui.status, ..self.ui }),
                    todo: post.todo,
                    ..self
                })
                &&& match r {
                    Ok(j) => {
                        &&& post.ui.status@ == loaded_text(l.label@, j)
                        &&& post.plan() == seq![StepV::Op(Op::RefreshSessions)] + self.plan()
                    },
                    Err(e) => {
                        &&& post.ui.status@ == "oci load '"@ + l.label@ + "': "@ + e
                        &&& post.todo == self.todo
                    },
                }
            },
        }
    }

    /// Takes in what came of fetching an image.
    pub fn image_loaded(&mut self, r: Result<Json, String>)
        ensures
            old(self).image_loaded_v(rep_v(r), *final(self)),
    {
        let label: String = match &self.jobs.load {
            Some(l) => l.label.clone(),
            None => {
                return;
            },
        };
        self.jobs.load = None;
        match r {
            Ok(j) => {
                let s: String = own("loaded '").concat(label.as_str()).concat("' → box '").concat(
                    j.str_or("top_name", "?"),
                ).concat("' (").concat(decimal_signed(j.i64_or("n_layers", 0)).as_str()).concat(
                    " layers) · Pty+ → \"Container from image…\" to start it",
                );
                self.say(s.as_str());
                self.first_op(Op::RefreshSessions);
            },
            Err(e) => {
                let s: String = own("oci load '").concat(label.as_str()).concat("': ").concat(e.as_str());
                self.say(s.as_str());
            },
        }
    }

    /// One more, from the greatest number back to none.
    pub open spec fn turn(n: usize) -> usize {
        if n == usize::MAX { 0 } else { (n + 1) as usize }
    }

    /// What time that goes by while an image is fetched changes.
    pub open spec fn load_tick_v(self, post: App) -> bool {
        match self.jobs.load {
            None => post == self,
            Some(l) => {
                &&& post == (App {
                    jobs: (Jobs { load: post.jobs.load, ..self.jobs }),
                    ui: (Ui { status: post.ui.status, ..self.ui }),
                    ..self
                })
                &&& match post.jobs.load {
                    Some(m) => m.label@ == l.label@ && m.spin == App::turn(l.spin),
                    None => false,
                }
                &&& post.ui.status@ == spinner(App::turn(l.spin) as int) + " pulling "@ + l.label@ + " …"@
            },
        }
    }

    /// Time goes by while an image is fetched: the sign turns.
    pub fn load_tick(&mut self)
        ensures
            old(self).load_tick_v(*final(self)),
    {
        match self.jobs.load.take() {
            None => {},
            Some(l) => {
                let spin: usize = if l.spin == usize::MAX { 0 } else { l.spin + 1 };
                let s: String = own(spinner_frame(spin)).concat(" pulling ").concat(l.label.as_str()).concat(" …");
                self.jobs.load = Some(LoadJob { label: l.label, spin });
                self.say(s.as_str());
            },
        }
    }

    /// What opening the model picker changes.
    pub open spec fn open_model_picker_v(self, post: App) -> bool {
        &&& post == (App {
            jobs: (Jobs { models: true, ..self.jobs }),
            ui: (Ui { modal: post.ui.modal, status: post.ui.status, ..self.ui }),
            todo: post.todo,
            ..self
        })
        &&& modal_v(post.ui.modal) == Some(
            ModalV::ModelPicker { models: Seq::empty(), source: Seq::empty(), sel: 0, loading: true },
        )
        &&& post.ui.status@ == "local model picker · querying HuggingFace for current models…"@
        &&& post.plan() == seq![StepV::FetchModels] + self.plan()
    }

    /// Opens the model picker, and asks for the models.
    pub fn open_model_picker(&mut self)
        ensures
            old(self).open_model_picker_v(*final(self)),
    {
        let models: Vec<ModelRow> = Vec::new();
        let source: String = String::new();
        assert(models_v(models@) =~= Seq::<ModelV>::empty());
        assert(source@ =~= Seq::<char>::empty());
        self.jobs.models = true;
        self.ui.modal = Some(Modal::ModelPicker { models, source, sel: 0, loading: true });
        self.say("local model picker · querying HuggingFace for current models…");
        self.first(Step::FetchModels);
    }

    /// What the models that were asked for change.
    pub open spec fn models_reply_v(self, r: Result<JV, Seq<char>>, post: App) -> bool {
        if !self.jobs.models {
            post == self
        } else {
            &&& post == (App {
                jobs: (Jobs { models: false, ..self.jobs }),
                ui: (Ui { modal: post.ui.modal, status: post.ui.status, ..self.ui }),
                ..self
            })
            &&& match modal_v(self.ui.modal) {
                Some(ModalV::ModelPicker { models, sel, .. }) => match r {
                    Ok(j) => {
                        let source = j.str_or("source"@, ""@);
                        &&& modal_v(post.ui.modal) == Some(
                            ModalV::ModelPicker { models: models_of(j), source, sel, loading: false },
                        )
                        &&& post.ui.status@ == "local model picker · "@ + dec(models_of(j).len() as int) + " model(s) · "@
                            + source
                    },
                    Err(e) => {
                        &&& modal_v(post.ui.modal) == Some(
                            ModalV::ModelPicker {
                                models,
                                source: "catalog fetch failed: "@ + e,
                                sel,
                                loading: false,
                            },
                        )
                        &&& post.ui.status@ == "oaita.models: "@ + e
                    },
                },
                _ => post.ui.modal == self.ui.modal && post.ui.status == self.ui.status,
            }
        }
    }

    /// Takes in the models that were asked for, where the picker is still open.
    pub fn models_reply(&mut self, r: Result<Json, String>)
        ensures
            old(self).models_reply_v(rep_v(r), *final(self)),
    {
        if !self.jobs.models {
            return;
        }
        self.jobs.models = false;
        match self.ui.modal.take() {
            Some(Modal::ModelPicker { models, source, sel, loading: _ }) => {
                match r {
                    Ok(j) => {
                        let rows: Vec<ModelRow> = read_models(&j);
                        let src: String = own(j.str_or("source", ""));
                        assert(rows@.len() == models_v(rows@).len());
                        let s: String = own("local model picker · ").concat(decimal(rows.len() as u64).as_str()).concat(
                            " model(s) · ",
                        ).concat(src.as_str());
                        self.ui.modal = Some(Modal::ModelPicker { models: rows, source: src, sel, loading: false });
                        self.say(s.as_str());
                    },
                    Err(e) => {
                        let src: String = own("catalog fetch failed: ").concat(e.as_str());
                        let s: String = own("oaita.models: ").concat(e.as_str());
                        self.ui.modal = Some(Modal::ModelPicker { models, source: src, sel, loading: false });
                        self.say(s.as_str());
                    },
                }
            },
            other => {
                self.ui.modal = other;
            },
        }
    }

    /// What the loss of the models that were asked for changes.
    pub open spec fn models_lost_v(self, post: App) -> bool {
        if !self.jobs.models {
            post == self
        } else {
            &&& post == (App {
                jobs: (Jobs { models: false, ..self.jobs }),
                ui: (Ui { modal: post.ui.modal, ..self.ui }),
                ..self
            })
            &&& match modal_v(self.ui.modal) {
                Some(ModalV::ModelPicker { models, sel, .. }) => modal_v(post.ui.modal) == Some(
                    ModalV::ModelPicker { models, source: "catalog worker died"@, sel, loading: false },
                ),
                _ => post.ui.modal == self.ui.modal,
            }
        }
    }

    /// No models will come.
    pub fn models_lost(&mut self)
        ensures
            old(self).models_lost_v(*final(self)),
    {
        if !self.jobs.models {
            return;
        }
        self.jobs.models = false;
        match self.ui.modal.take() {
            Some(Modal::ModelPicker { models, source: _, sel, loading: _ }) => {
                self.ui.modal = Some(
                    Modal::ModelPicker { models, source: own("catalog worker died"), sel, loading: false },
                );
            },
            other => {
                self.ui.modal = other;
            },
        }
    }

    /// What offering the models changes: the engine is asked whether there is an endpoint, unless
    /// they were offered or a dialog is open.
    pub open spec fn offer_v(self, post: App) -> bool {
        if self.jobs.model_picker_offered || self.ui.modal is Some {
            post == self
        } else {
            &&& post == (App { todo: post.todo, ..self })
            &&& post.plan() == seq![StepV::Call("oaita.status"@, Seq::empty(), Then::ApiStatus)] + self.plan()
        }
    }

    /// Offers the models, once, where there is no endpoint.
    pub fn maybe_offer_model_picker(&mut self)
        ensures
            old(self).offer_v(*final(self)),
    {
        if self.jobs.model_picker_offered || self.ui.modal.is_some() {
            return;
        }
        self.first_call("oaita.status", list0(), Then::ApiStatus);
    }

    /// What the state of the endpoint changes.
    pub open spec fn api_status_v(self, r: Result<JV, Seq<char>>, post: App) -> bool {
        let none = match r {
            Ok(j) => j.get_str("kind"@) == Some("none"@),
            Err(_) => false,
        };
        if none {
            (App { jobs: (Jobs { model_picker_offered: true, ..self.jobs }), ..self }).open_model_picker_v(post)
        } else {
            post == self
        }
    }

    /// Takes in the state of the endpoint: where there is none, the models are offered.
    pub fn api_status_reply(&mut self, r: Result<Json, String>)
        ensures
            old(self).api_status_v(rep_v(r), *final(self)),
    {
        let none: bool = match r {
            Ok(j) => match j.get_str("kind") {
                Some(k) => same(k, "none"),
                None => false,
            },
            Err(_) => false,
        };
        if none {
            self.jobs.model_picker_offered = true;
            self.open_model_picker();
        }
    }

    /// Takes in the endpoint, for the note of the calls.
    pub fn endpoint_read(&mut self, resolved: Option<(String, String)>)
        ensures
            *final(self) == (App { side: (Side { api_note: final(self).side.api_note, ..old(self).side }), ..*old(self) }),
            strs(final(self).side.api_note@) == endpoint_note(endpoint_v(resolved)),
    {
        self.side.api_note = endpoint_note_lines(resolved);
    }

    /// Asks for the endpoint, for its editor.
    pub fn open_api_config(&mut self)
        ensures
            *final(self) == (App { todo: final(self).todo, ..*old(self) }),
            final(self).plan() == seq![StepV::ReadApiConfig] + old(self).plan(),
    {
        self.first(Step::ReadApiConfig);
    }

    /// Opens the editor of the endpoint with what is set up.
    pub fn api_config_read(&mut self, base_url: String, model: String, api_key: String, path: &str)
        ensures
            *final(self) == (App {
                ui: (Ui { modal: final(self).ui.modal, status: final(self).ui.status, ..old(self).ui }),
                ..*old(self)
            }),
            modal_v(final(self).ui.modal) == Some(
                ModalV::ApiConfig {
                    base_url: base_url@,
                    model: model@,
                    api_key: api_key@,
                    slot: ApiField::Model,
                    result: Seq::empty(),
                    testing: false,
                },
            ),
            final(self).ui.status@ == "edit external API · writes "@ + path@,
    {
        let result: String = String::new();
        assert(result@ =~= Seq::<char>::empty());
        self.ui.modal = Some(
            Modal::ApiConfig { base_url, model, api_key, slot: ApiField::Model, result, testing: false },
        );
        let s: String = own("edit external API · writes ").concat(path);
        self.say(s.as_str());
    }

    /// Begins to test an endpoint.
    pub fn start_api_probe(&mut self, base_url: String, model: String, api_key: String)
        ensures
            *final(self) == (App { jobs: (Jobs { probe: true, ..old(self).jobs }), todo: final(self).todo, ..*old(self) }),
            final(self).plan() == seq![StepV::Probe(base_url@, model@, api_key@)] + old(self).plan(),
    {
        self.jobs.probe = true;
        self.first(Step::Probe { base_url, model, api_key });
    }

    /// What came of a test, in words.
    pub open spec fn probe_text(r: Result<JV, Seq<char>>) -> Seq<char> {
        match r {
            Ok(j) => if j.flag("ok"@) {
                "✓ "@ + j.str_or("detail"@, "connected"@)
            } else {
                "✗ "@ + j.str_or("error"@, "probe failed"@)
            },
            Err(e) => "✗ "@ + e,
        }
    }

    /// What the outcome of a test changes, in words.
    pub open spec fn probed_v(self, text: Seq<char>, post: App) -> bool {
        if !self.jobs.probe {
            post == self
        } else {
            &&& post == (App {
                jobs: (Jobs { probe: false, ..self.jobs }),
                ui: (Ui { modal: post.ui.modal, ..self.ui }),
                ..self
            })
            &&& match modal_v(self.ui.modal) {
                Some(ModalV::ApiConfig { base_url, model, api_key, slot, .. }) => modal_v(post.ui.modal) == Some(
                    ModalV::ApiConfig { base_url, model, api_key, slot, result: text, testing: false },
                ),
                _ => post.ui.modal == self.ui.modal,
            }
        }
    }

    fn probed(&mut self, text: String)
        ensures
            old(self).probed_v(text@, *final(self)),
    {
        if !self.jobs.probe {
            return;
        }
        self.jobs.probe = false;
        match self.ui.modal.take() {
            Some(Modal::ApiConfig { base_url, model, api_key, slot, result: _, testing: _ }) => {
                self.ui.modal = Some(
                    Modal::ApiConfig { base_url, model, api_key, slot, result: text, testing: false },
                );
            },
            other => {
                self.ui.modal = other;
            },
        }
    }

    /// Takes in the outcome of a test, where the editor is still open.
    pub fn probe_reply(&mut self, r: Result<Json, String>)
        ensures
            old(self).probed_v(App::probe_text(rep_v(r)), *final(self)),
    {
        let text: String = match r {
            Ok(j) => {
                if j.flag("ok") {
                    own("✓ ").concat(j.str_or("detail", "connected"))
                } else {
                    own("✗ ").concat(j.str_or("error", "probe failed"))
                }
            },
            Err(e) => own("✗ ").concat(e.as_str()),
        };
        self.probed(text);
    }

    /// The outcome of a test will not come.
    pub fn probe_lost(&mut self)
        ensures
            old(self).probed_v("✗ probe worker died"@, *final(self)),
    {
        self.probed(own("✗ probe worker died"));
    }

    /// Writes the endpoint to its file; a model is required. Tells whether it is written.
    pub fn save_api_config(&mut self, base_url: &str, model: &str, api_key: &str) -> (saved: bool)
        ensures
            saved == (trimmed(model@).len() > 0),
            saved ==> {
                &&& *final(self) == (App { todo: final(self).todo, ..*old(self) })
                &&& final(self).plan() == seq![StepV::WriteApiConfig(endpoint_file(base_url@, model@, api_key@))]
                    + old(self).plan()
            },
            !saved ==> old(self).says(*final(self), "model is required — fill it before saving"@),
    {
        if trim(model).as_str().is_empty() {
            self.say("model is required — fill it before saving");
            return false;
        }
        self.first(Step::WriteApiConfig(file_of_endpoint(base_url, model, api_key)));
        true
    }

    /// Takes in whether the endpoint was written.
    pub fn api_config_written(&mut self, path: &str, r: Result<(), String>)
        ensures
            *final(self) == (App {
                ui: (Ui { status: final(self).ui.status, ..old(self).ui }),
                todo: final(self).todo,
                ..*old(self)
            }),
            match r {
                Ok(_) => {
                    &&& final(self).ui.status@ == "saved external API → "@ + path@
                    &&& final(self).plan() == seq![StepV::ReadEndpoint] + old(self).plan()
                },
                Err(e) => {
                    &&& final(self).ui.status@ == "write "@ + path@ + ": "@ + e@
                    &&& final(self).todo == old(self).todo
                },
            },
    {
        match r {
            Ok(_) => {
                let s: String = own("saved external API → ").concat(path);
                self.say(s.as_str());
                self.first(Step::ReadEndpoint);
            },
            Err(e) => {
                let s: String = own("write ").concat(path).concat(": ").concat(e.as_str());
                self.say(s.as_str());
            },
        }
    }
}

/// The endpoint that a test is made of.
pub open spec fn probe_v(base_url: Seq<char>, model: Seq<char>, api_key: Seq<char>) -> JV {
    JV::Obj(seq![("base_url"@, JV::Str(base_url)), ("model"@, JV::Str(model)), ("api_key"@, JV::Str(api_key))])
}

/// Writes the endpoint that a test is made of as the engine reads it.
pub fn probe_request(base_url: &str, model: &str, api_key: &str) -> (r: Json)
    ensures
        r@ == probe_v(base_url@, model@, api_key@),
{
    let r: Json = Json::obj().with("base_url", Json::text(base_url)).with("model", Json::text(model)).with(
        "api_key",
        Json::text(api_key),
    );
    assert(r@->Obj_0 =~= probe_v(base_url@, model@, api_key@)->Obj_0);
    r
}

/// One image is fetched at a time: while one is, no other is begun.
pub proof fn law_one_image_at_a_time(a: App, b: App, reference: Seq<char>)
    requires
        a.jobs.load is Some,
        a.start_image_load_v(reference, b),
    ensures
        b.jobs == a.jobs,
        b.todo == a.todo,
{
}

/// The models are offered once: whoever closes the offer is not asked again.
pub proof fn law_models_are_offered_once(a: App, b: App, c: App, r: Result<JV, Seq<char>>)
    requires
        a.api_status_v(r, b),
        b.ui.modal != a.ui.modal,
        b.offer_v(c),
    ensures
        b.jobs.model_picker_offered,
        c == b,
{
}

} // verus!
