use vstd::prelude::*;

use crate::models::{AvailableModels, ModelInfo};
use crate::text::str_eq;

verus! {

/// Relies on uuid::Uuid::new_v4 and its hyphenated Display form: a fresh
/// random identifier, 36 characters long. Randomness admits no more than the
/// length.
#[verifier::external_body]
fn fresh_model_id() -> (r: String)
    ensures
        r@.len() == 36,
{
    uuid::Uuid::new_v4().to_string()
}

/// Whether some model in `s` carries the id.
pub open spec fn has_id(s: Seq<ModelInfo>, id: Seq<char>) -> bool {
    exists|i: int| 0 <= i < s.len() && s[i].id@ == id
}

/// The first model in `s` carrying the id.
pub open spec fn spec_lookup(s: Seq<ModelInfo>, id: Seq<char>) -> Option<ModelInfo>
    decreases s.len(),
{
    if s.len() == 0 {
        None
    } else if s[0].id@ == id {
        Some(s[0])
    } else {
        spec_lookup(s.drop_first(), id)
    }
}

/// `s` with `m` replacing the first model of `m`'s id, or appended when no
/// model carries it.
pub open spec fn spec_upsert(s: Seq<ModelInfo>, m: ModelInfo) -> Seq<ModelInfo>
    decreases s.len(),
{
    if s.len() == 0 {
        seq![m]
    } else if s[0].id@ == m.id@ {
        seq![m] + s.drop_first()
    } else {
        seq![s[0]] + spec_upsert(s.drop_first(), m)
    }
}

/// `m` with its active flag set to `b`.
pub open spec fn with_active(m: ModelInfo, b: bool) -> ModelInfo {
    ModelInfo { is_active: b, ..m }
}

proof fn lemma_lookup_at(s: Seq<ModelInfo>, id: Seq<char>, i: int)
    requires
        0 <= i < s.len(),
        s[i].id@ == id,
        forall|j: int| 0 <= j < i ==> s[j].id@ != id,
    ensures
        spec_lookup(s, id) == Some(s[i]),
    decreases s.len(),
{
    if i > 0 {
        lemma_lookup_at(s.drop_first(), id, i - 1);
    }
}

proof fn lemma_lookup_none(s: Seq<ModelInfo>, id: Seq<char>)
    requires
        forall|j: int| 0 <= j < s.len() ==> s[j].id@ != id,
    ensures
        spec_lookup(s, id) is None,
    decreases s.len(),
{
    if s.len() > 0 {
        lemma_lookup_none(s.drop_first(), id);
    }
}

proof fn lemma_upsert_replaces(s: Seq<ModelInfo>, m: ModelInfo, i: int)
    requires
        0 <= i < s.len(),
        s[i].id@ == m.id@,
        forall|j: int| 0 <= j < i ==> s[j].id@ != m.id@,
    ensures
        spec_upsert(s, m) == s.update(i, m),
    decreases s.len(),
{
    if i == 0 {
        assert(seq![m] + s.drop_first() =~= s.update(0, m));
    } else {
        lemma_upsert_replaces(s.drop_first(), m, i - 1);
        assert(s.drop_first().update(i - 1, m) =~= s.update(i, m).drop_first());
        assert(seq![s[0]] + s.update(i, m).drop_first() =~= s.update(i, m));
    }
}

proof fn lemma_upsert_appends(s: Seq<ModelInfo>, m: ModelInfo)
    requires
        forall|j: int| 0 <= j < s.len() ==> s[j].id@ != m.id@,
    ensures
        spec_upsert(s, m) == s.push(m),
    decreases s.len(),
{
    if s.len() == 0 {
        assert(seq![m] =~= s.push(m));
    } else {
        lemma_upsert_appends(s.drop_first(), m);
        assert(seq![s[0]] + s.drop_first().push(m) =~= s.push(m));
    }
}

/// The index of the first model in `s` carrying the id.
pub open spec fn idx_of_id(s: Seq<ModelInfo>, id: Seq<char>) -> int
    decreases s.len(),
{
    if s.len() == 0 {
        0
    } else if s[0].id@ == id {
        0
    } else {
        1 + idx_of_id(s.drop_first(), id)
    }
}

/// The index of the first model in `s` carrying a different id.
pub open spec fn idx_of_other(s: Seq<ModelInfo>, id: Seq<char>) -> int
    decreases s.len(),
{
    if s.len() == 0 {
        0
    } else if s[0].id@ != id {
        0
    } else {
        1 + idx_of_other(s.drop_first(), id)
    }
}

proof fn lemma_idx_of_id_at(s: Seq<ModelInfo>, id: Seq<char>, i: int)
    requires
        0 <= i < s.len(),
        s[i].id@ == id,
        forall|j: int| 0 <= j < i ==> s[j].id@ != id,
    ensures
        idx_of_id(s, id) == i,
    decreases s.len(),
{
    if i > 0 {
        lemma_idx_of_id_at(s.drop_first(), id, i - 1);
    }
}

proof fn lemma_idx_of_other_at(s: Seq<ModelInfo>, id: Seq<char>, i: int)
    requires
        0 <= i < s.len(),
        s[i].id@ != id,
        forall|j: int| 0 <= j < i ==> s[j].id@ == id,
    ensures
        idx_of_other(s, id) == i,
    decreases s.len(),
{
    if i > 0 {
        lemma_idx_of_other_at(s.drop_first(), id, i - 1);
    }
}

/// The registry after removing the model with the given id (present at
/// `idx_of_id`): a removal that does not touch the active model keeps it;
/// removing the active model promotes the first other model, both as the new
/// active id and in its flag; removing the last model leaves the active id
/// empty.
pub open spec fn spec_after_removal(s: Seq<ModelInfo>, active: Seq<char>, id: Seq<char>) -> (
    Seq<ModelInfo>,
    Seq<char>,
) {
    let i = idx_of_id(s, id);
    if active != id {
        (s.remove(i), active)
    } else if s.len() <= 1 {
        (s.remove(i), Seq::empty())
    } else {
        let j = idx_of_other(s, id);
        (s.update(j, with_active(s[j], true)).remove(i), s[j].id@)
    }
}

/// The built-in object-recognition model, up to its identifier.
pub open spec fn is_default_cifar(m: ModelInfo) -> bool {
    &&& m.name@ == "CIFAR-10 object recognition"@
    &&& m.description@ == "Recognises ten common object classes such as airplanes, cars and birds"@
    &&& m.path@ == "resources/models/cifar10_model.pth"@
    &&& m.model_type@ == "ResNet34"@
    &&& m.num_classes == 10
    &&& m.script_path@ == "resources/scripts/cifar10_val.py"@
    &&& m.is_active == true
}

/// The built-in herb-recognition model, up to its identifier.
pub open spec fn is_default_medicine(m: ModelInfo) -> bool {
    &&& m.name@ == "Medicinal herb recognition"@
    &&& m.description@ == "Specialised model that recognises several hundred medicinal herbs"@
    &&& m.path@ == "resources/models/medicine_model.pth"@
    &&& m.model_type@ == "MobileNetV3-Small"@
    &&& m.num_classes == 163
    &&& m.script_path@ == "resources/scripts/medicine_val.py"@
    &&& m.is_active == false
}

fn default_cifar_model(id: String) -> (m: ModelInfo)
    ensures
        m.id == id,
        is_default_cifar(m),
{
    ModelInfo {
        id,
        name: String::from_str("CIFAR-10 object recognition"),
        description: String::from_str(
            "Recognises ten common object classes such as airplanes, cars and birds",
        ),
        path: String::from_str("resources/models/cifar10_model.pth"),
        model_type: String::from_str("ResNet34"),
        num_classes: 10,
        script_path: String::from_str("resources/scripts/cifar10_val.py"),
        is_active: true,
    }
}

fn default_medicine_model(id: String) -> (m: ModelInfo)
    ensures
        m.id == id,
        is_default_medicine(m),
{
    ModelInfo {
        id,
        name: String::from_str("Medicinal herb recognition"),
        description: String::from_str(
            "Specialised model that recognises several hundred medicinal herbs",
        ),
        path: String::from_str("resources/models/medicine_model.pth"),
        model_type: String::from_str("MobileNetV3-Small"),
        num_classes: 163,
        script_path: String::from_str("resources/scripts/medicine_val.py"),
        is_active: false,
    }
}

/// The registry of available models and the identifier of the active one.
#[derive(Debug)]
pub struct ModelRegistry {
    pub models: Vec<ModelInfo>,
    pub active_model_id: String,
}

impl ModelRegistry {
    /// No two registered models share an identifier.
    pub open spec fn wf(self) -> bool {
        forall|i: int, j: int|
            0 <= i < j < self.models@.len() ==> self.models@[i].id@ != self.models@[j].id@
    }

    /// The index of the first model carrying the id, if any.
    fn find_index(&self, id: &str) -> (r: Option<usize>)
        ensures
            match r {
                Some(i) => {
                    &&& i < self.models@.len()
                    &&& self.models@[i as int].id@ == id@
                    &&& forall|j: int| 0 <= j < i ==> self.models@[j].id@ != id@
                    &&& spec_lookup(self.models@, id@) == Some(self.models@[i as int])
                    &&& idx_of_id(self.models@, id@) == i
                },
                None => !has_id(self.models@, id@) && spec_lookup(self.models@, id@) is None,
            },
    {
        let n = self.models.len();
        let mut i: usize = 0;
        while i < n
            invariant
                i <= n,
                n == self.models@.len(),
                forall|j: int| 0 <= j < i ==> self.models@[j].id@ != id@,
            decreases n - i,
    	{
            if str_eq(self.models[i].id.as_str(), id) {
                proof {
                    lemma_lookup_at(self.models@, id@, i as int);
                    lemma_idx_of_id_at(self.models@, id@, i as int);
                }
                return Some(i);
            }
            i = i + 1;
        }
        proof {
            lemma_lookup_none(self.models@, id@);
        }
        None
    }

    /// Stores `model`, replacing the model that already carries its id, if
    /// any.
    fn upsert(&mut self, model: ModelInfo)
        requires
            old(self).wf(),
        ensures
            final(self).wf(),
            final(self).active_model_id == old(self).active_model_id,
            final(self).models@ == spec_upsert(old(self).models@, model),
    {
        let ghost previous = self.models@;
        match self.find_index(model.id.as_str()) {
            Some(i) => {
                proof {
                    lemma_upsert_replaces(previous, model, i as int);
                }
                self.models.remove(i);
                self.models.insert(i, model);
                proof {
                    assert(self.models@ =~= previous.update(i as int, model));
                    assert forall|p: int, q: int|
                        0 <= p < q < self.models@.len() implies self.models@[p].id@
                        != self.models@[q].id@ by {
                        assert(self.models@[p].id@ == previous[p].id@);
                        assert(self.models@[q].id@ == previous[q].id@);
                    }
                }
            },
            None => {
                proof {
                    lemma_upsert_appends(previous, model);
                }
                self.models.push(model);
                proof {
                    assert forall|p: int, q: int|
                        0 <= p < q < self.models@.len() implies self.models@[p].id@
                        != self.models@[q].id@ by {
                        if q < previous.len() {
                        } else {
                            assert(self.models@[q] == model);
                            assert(previous[p].id@ != model.id@);
                        }
                    }
                }
            },
        }
    }

    /// A fresh registry holding the two built-in models, with the herb model
    /// active.
    pub fn new() -> (r: ModelRegistry)
        ensures
            r.wf(),
            1 <= r.models@.len() <= 2,
            forall|i: int|
                0 <= i < r.models@.len() ==> is_default_cifar(#[trigger] r.models@[i])
                    || is_default_medicine(r.models@[i]),
            spec_lookup(r.models@, r.active_model_id@) matches Some(m) && is_default_medicine(m),
    {
        let cifar_id = fresh_model_id();
        let medicine_id = fresh_model_id();
        let mut reg = ModelRegistry { models: Vec::new(), active_model_id: String::new() };
        let cifar = default_cifar_model(cifar_id);
        let ghost cifar_snapshot = cifar;
        reg.upsert(cifar);
        proof {
            assert(reg.models@ =~= seq![cifar_snapshot]);
        }
        let medicine = default_medicine_model(medicine_id.clone());
        let ghost medicine_snapshot = medicine;
        reg.upsert(medicine);
        reg.active_model_id = medicine_id;
        proof {
            assert(seq![cifar_snapshot].drop_first() =~= Seq::<ModelInfo>::empty());
            assert(spec_upsert(Seq::<ModelInfo>::empty(), medicine_snapshot) =~= seq![
                medicine_snapshot,
            ]);
            if cifar_snapshot.id@ == medicine_snapshot.id@ {
                assert(reg.models@ =~= seq![medicine_snapshot]);
                assert(reg.models@[0].id@ == reg.active_model_id@);
                lemma_lookup_at(reg.models@, reg.active_model_id@, 0);
            } else {
                assert(reg.models@ =~= seq![cifar_snapshot, medicine_snapshot]);
                assert(reg.models@[1].id@ == reg.active_model_id@);
                lemma_lookup_at(reg.models@, reg.active_model_id@, 1);
            }
        }
        reg
    }

    /// All registered models, in registry order.
    pub fn get_models(&self) -> (r: Vec<ModelInfo>)
        ensures
            r@ == self.models@,
    {
        let n = self.models.len();
        let mut out: Vec<ModelInfo> = Vec::new();
        let mut i: usize = 0;
        while i < n
            invariant
                i <= n,
                n == self.models@.len(),
                out@ == self.models@.take(i as int),
            decreases n - i,
        {
            out.push(self.models[i].clone());
            proof {
                assert(out@ =~= self.models@.take(i + 1 as int));
            }
            i = i + 1;
        }
        proof {
            assert(self.models@.take(n as int) =~= self.models@);
        }
        out
    }

    /// Every registered model together with the active model's id; the id is
    /// empty when the active id is not registered.
    pub fn get_available_models(&self) -> (r: AvailableModels)
        ensures
            r.models@ == self.models@,
            r.active_model_id@ == (match spec_lookup(self.models@, self.active_model_id@) {
                Some(m) => m.id@,
                None => Seq::<char>::empty(),
            }),
    {
        let models = self.get_models();
        let active_model_id = match self.get_active_model() {
            Some(m) => m.id,
            None => String::new(),
        };
        AvailableModels { models, active_model_id }
    }

    /// The active model, when its id is registered.
    pub fn get_active_model(&self) -> (r: Option<ModelInfo>)
        ensures
            r == spec_lookup(self.models@, self.active_model_id@),
    {
        match self.find_index(self.active_model_id.as_str()) {
            Some(i) => Some(self.models[i].clone()),
            None => None,
        }
    }

    /// Makes the model with the given id active: every other model's flag is
    /// cleared, the chosen model's flag is set, and the active id is updated.
    /// An unknown id is rejected and changes nothing.
    pub fn set_active_model(&mut self, model_id: &str) -> (r: Result<ModelInfo, String>)
        requires
            old(self).wf(),
        ensures
            final(self).wf(),
            !has_id(old(self).models@, model_id@) ==> (r matches Err(e) && e@ == "unknown model id: "@
                + model_id@ && *final(self) == *old(self)),
            has_id(old(self).models@, model_id@) ==> {
                &&& final(self).active_model_id@ == model_id@
                &&& final(self).models@.len() == old(self).models@.len()
                &&& forall|i: int|
                    0 <= i < old(self).models@.len() ==> final(self).models@[i] == with_active(
                        old(self).models@[i],
                        old(self).models@[i].id@ == model_id@,
                    )
                &&& r matches Ok(m) && spec_lookup(final(self).models@, model_id@) == Some(m)
            },
    {
        let found = self.find_index(model_id);
        match found {
            None => {
                let mut msg = String::from_str("unknown model id: ");
                msg.append(model_id);
                Err(msg)
            },
            Some(sel) => {
                let ghost previous = self.models@;
                let n = self.models.len();
                let mut updated: Vec<ModelInfo> = Vec::new();
                let mut i: usize = 0;
                while i < n
                    invariant
                        i <= n,
                        n == self.models@.len(),
                        self.models@ == previous,
                        updated@.len() == i,
                        forall|j: int|
                            0 <= j < i ==> updated@[j] == with_active(
                                previous[j],
                                previous[j].id@ == model_id@,
                            ),
                    decreases n - i,
                {
                    let flag = str_eq(self.models[i].id.as_str(), model_id);
                    let src = &self.models[i];
                    let item = ModelInfo {
                        id: src.id.clone(),
                        name: src.name.clone(),
                        description: src.description.clone(),
                        path: src.path.clone(),
                        model_type: src.model_type.clone(),
                        num_classes: src.num_classes,
                        script_path: src.script_path.clone(),
                        is_active: flag,
                    };
                    updated.push(item);
                    i = i + 1;
                }
                self.models = updated;
                self.active_model_id = model_id.to_owned();
                proof {
                    assert forall|p: int, q: int|
                        0 <= p < q < self.models@.len() implies self.models@[p].id@
                        != self.models@[q].id@ by {
                        assert(self.models@[p].id@ == previous[p].id@);
                        assert(self.models@[q].id@ == previous[q].id@);
                    }
                }
                match self.find_index(model_id) {
                    Some(k) => Ok(self.models[k].clone()),
                    None => {
                        proof {
                            assert(self.models@[sel as int].id@ == model_id@);
                            assert(false);
                        }
                        vstd::pervasive::unreached()
                    },
                }
            },
        }
    }

    /// Registers a model under a freshly drawn identifier and returns the
    /// identifier; the model's own id field is ignored and overwritten.
    pub fn add_model(&mut self, model: ModelInfo) -> (r: Result<String, String>)
        requires
            old(self).wf(),
        ensures
            final(self).wf(),
            final(self).active_model_id == old(self).active_model_id,
            r matches Ok(id) && id@.len() == 36 && final(self).models@ == spec_upsert(
                old(self).models@,
                ModelInfo { id, ..model },
            ),
    {
        let id = fresh_model_id();
        let stored = ModelInfo {
            id: id.clone(),
            name: model.name,
            description: model.description,
            path: model.path,
            model_type: model.model_type,
            num_classes: model.num_classes,
            script_path: model.script_path,
            is_active: model.is_active,
        };
        self.upsert(stored);
        Ok(id)
    }

    /// Drops the model with the given id. Removing the active model promotes
    /// the first remaining model — its flag is set and it becomes active — or
    /// leaves the active id empty when it was the last one. An unknown id is
    /// rejected and changes nothing.
    pub fn remove_model(&mut self, model_id: &str) -> (r: Result<(), String>)
        requires
            old(self).wf(),
        ensures
            final(self).wf(),
            !has_id(old(self).models@, model_id@) ==> (r matches Err(e) && e@ == "unknown model id: "@
                + model_id@ && *final(self) == *old(self)),
            has_id(old(self).models@, model_id@) ==> r is Ok && ({
                let after = spec_after_removal(
                    old(self).models@,
                    old(self).active_model_id@,
                    model_id@,
                );
                final(self).models@ == after.0 && final(self).active_model_id@ == after.1
            }),
    {
        let ghost previous = self.models@;
        let found = self.find_index(model_id);
        match found {
            None => {
                let mut msg = String::from_str("unknown model id: ");
                msg.append(model_id);
                Err(msg)
            },
            Some(sel) => {
                if str_eq(self.active_model_id.as_str(), model_id) {
                    // the active model goes: promote the first other one
                    let n = self.models.len();
                    let mut j: usize = 0;
                    let mut other: Option<usize> = None;
                    while j < n
                        invariant_except_break
                            other is None,
                        invariant
                            j <= n,
                            n == self.models@.len(),
                            self.models@ == previous,
                            forall|k: int| 0 <= k < j ==> previous[k].id@ == model_id@,
                        ensures
                            n == self.models@.len(),
                            self.models@ == previous,
                            match other {
                                Some(o) => o < n && previous[o as int].id@ != model_id@
                                    && idx_of_other(previous, model_id@) == o,
                                None => forall|k: int|
                                    0 <= k < n ==> previous[k].id@ == model_id@,
                            },
                        decreases n - j,
                    {
                        if !str_eq(self.models[j].id.as_str(), model_id) {
                            proof {
                                lemma_idx_of_other_at(previous, model_id@, j as int);
                            }
                            other = Some(j);
                            break;
                        }
                        j = j + 1;
                    }
                    match other {
                        Some(o) => {
                            let src = &self.models[o];
                            let promoted = ModelInfo {
                                id: src.id.clone(),
                                name: src.name.clone(),
                                description: src.description.clone(),
                                path: src.path.clone(),
                                model_type: src.model_type.clone(),
                                num_classes: src.num_classes,
                                script_path: src.script_path.clone(),
                                is_active: true,
                            };
                            let new_active = promoted.id.clone();
                            self.models.remove(o);
                            self.models.insert(o, promoted);
                            proof {
                                assert(self.models@ =~= previous.update(
                                    o as int,
                                    with_active(previous[o as int], true),
                                ));
                            }
                            self.active_model_id = new_active;
                            self.models.remove(sel);
                            proof {
                                assert forall|p: int, q: int|
                                    0 <= p < q < self.models@.len() implies self.models@[p].id@
                                    != self.models@[q].id@ by {
                                    let p0: int = if p < sel { p } else { p + 1 };
                                    let q0: int = if q < sel { q } else { q + 1 };
                                    assert(self.models@[p].id@ == previous[p0].id@);
                                    assert(self.models@[q].id@ == previous[q0].id@);
                                }
                            }
                            Ok(())
                        },
                        None => {
                            // every model carries the removed id; under
                            // uniqueness that is the one being removed
                            proof {
                                assert(previous.len() <= 1) by {
                                    if previous.len() > 1 {
                                        assert(previous[0].id@ == model_id@);
                                        assert(previous[1].id@ == model_id@);
                                    }
                                }
                            }
                            self.active_model_id = String::new();
                            self.models.remove(sel);
                            proof {
                                assert(self.models@ =~= previous.remove(sel as int));
                                assert(self.active_model_id@ =~= Seq::<char>::empty());
                            }
                            Ok(())
                        },
                    }
                } else {
                    self.models.remove(sel);
                    proof {
                        assert forall|p: int, q: int|
                            0 <= p < q < self.models@.len() implies self.models@[p].id@
                            != self.models@[q].id@ by {
                            let p0: int = if p < sel { p } else { p + 1 };
                            let q0: int = if q < sel { q } else { q + 1 };
                            assert(self.models@[p].id@ == previous[p0].id@);
                            assert(self.models@[q].id@ == previous[q0].id@);
                        }
                    }
                    Ok(())
                }
            },
        }
    }
}

} // verus!
