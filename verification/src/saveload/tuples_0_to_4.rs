//! Lists of up to four component types.

use crate::saveload::details::{answers, Components, SaveLoadComponent, Storages};
use crate::saveload::slot::{
    load_slot, save_slot, slot_load_fails, slot_loaded, slot_passes, slot_save_fails, slot_saved,
};
use crate::storage::Storage;
use crate::world::{Component, Entity};
use vstd::prelude::*;

verus! {

/// The empty list: nothing is saved, nothing is loaded, and neither can fail.
impl Storages for () {
    type ReadStorages = ();

    type WriteStorages = ();
}

impl<M, E> Components<M, E> for () {
    type Data = ();

    open spec fn save_yields(
        entity: Entity,
        storages: &(),
        ids: spec_fn(Entity, Option<M>) -> bool,
        r: Result<(), E>,
    ) -> bool {
        r is Ok
    }

    open spec fn load_yields(
        entity: Entity,
        components: (),
        before: &(),
        after: &(),
        ids: spec_fn(M, Option<Entity>) -> bool,
        r: Result<(), E>,
    ) -> bool {
        r is Ok
    }

    fn save<F>(entity: Entity, storages: &(), ids: F) -> (r: Result<(), E>) where
        F: FnMut(Entity) -> Option<M>,
     {
        Ok(())
    }

    fn load<F>(entity: Entity, components: (), storages: &mut (), ids: F) -> (r: Result<
        (),
        E,
    >) where F: FnMut(M) -> Option<Entity> {
        Ok(())
    }
}

/// A list of one component type.
impl<C0: Component> Storages for (C0,) {
    type ReadStorages = (Storage<C0>,);

    type WriteStorages = (Storage<C0>,);
}

impl<M, E, C0> Components<M, E> for (C0,) where
    C0: SaveLoadComponent<M>,
    E: From<C0::Error>,
 {
    type Data = (Option<C0::Data>,);

    open spec fn save_yields(
        entity: Entity,
        storages: &(Storage<C0>,),
        ids: spec_fn(Entity, Option<M>) -> bool,
        r: Result<(Option<C0::Data>,), E>,
    ) -> bool {
        match r {
            Ok(data) => {
                &&& slot_saved::<M, C0>(storages.0@, entity, ids, Ok(data.0))
            },
            Err(err) => {
                ||| slot_save_fails::<M, C0, E>(storages.0@, entity, ids, err)
            },
        }
    }

    open spec fn load_yields(
        entity: Entity,
        components: (Option<C0::Data>,),
        before: &(Storage<C0>,),
        after: &(Storage<C0>,),
        ids: spec_fn(M, Option<Entity>) -> bool,
        r: Result<(), E>,
    ) -> bool {
        match r {
            Ok(_) => {
                &&& slot_loaded::<M, C0>(before.0@, after.0@, entity, components.0, ids, Ok(()))
            },
            Err(err) => {
                ||| slot_load_fails::<M, C0, E>(
                    before.0@,
                    after.0@,
                    entity,
                    components.0,
                    ids,
                    err,
                )
            },
        }
    }

    fn save<F>(
        entity: Entity,
        storages: &(Storage<C0>,),
        mut ids: F,
    ) -> (r: Result<(Option<C0::Data>,), E>) where
        F: FnMut(Entity) -> Option<M>,
     {
        let ghost asked = answers(ids);
        let d0 = match save_slot::<M, C0, F>(entity, &storages.0, &mut ids) {
            Ok(slot) => slot,
            Err(e) => {
                return Err(E::from(e));
            },
        };
        Ok((d0,))
    }

    fn load<F>(
        entity: Entity,
        components: (Option<C0::Data>,),
        storages: &mut (Storage<C0>,),
        mut ids: F,
    ) -> (r: Result<(), E>) where
        F: FnMut(M) -> Option<Entity>,
     {
        let (c0,) = components;
        match load_slot::<M, C0, F>(entity, c0, &mut storages.0, &mut ids) {
            Ok(_) => {},
            Err(e) => {
                return Err(E::from(e));
            },
        }
        Ok(())
    }
}

/// A list of two component types.
impl<C0: Component, C1: Component> Storages for (C0, C1) {
    type ReadStorages = (Storage<C0>, Storage<C1>);

    type WriteStorages = (Storage<C0>, Storage<C1>);
}

impl<M, E, C0, C1> Components<M, E> for (C0, C1) where
    C0: SaveLoadComponent<M>,
    E: From<C0::Error>,
    C1: SaveLoadComponent<M>,
    E: From<C1::Error>,
 {
    type Data = (Option<C0::Data>, Option<C1::Data>);

    open spec fn save_yields(
        entity: Entity,
        storages: &(Storage<C0>, Storage<C1>),
        ids: spec_fn(Entity, Option<M>) -> bool,
        r: Result<(Option<C0::Data>, Option<C1::Data>), E>,
    ) -> bool {
        match r {
            Ok(data) => {
                &&& slot_saved::<M, C0>(storages.0@, entity, ids, Ok(data.0))
                &&& slot_saved::<M, C1>(storages.1@, entity, ids, Ok(data.1))
            },
            Err(err) => {
                let reached1 = slot_passes::<M, C0>(storages.0@, entity, ids);
                ||| slot_save_fails::<M, C0, E>(storages.0@, entity, ids, err)
                ||| reached1 && slot_save_fails::<M, C1, E>(storages.1@, entity, ids, err)
            },
        }
    }

    open spec fn load_yields(
        entity: Entity,
        components: (Option<C0::Data>, Option<C1::Data>),
        before: &(Storage<C0>, Storage<C1>),
        after: &(Storage<C0>, Storage<C1>),
        ids: spec_fn(M, Option<Entity>) -> bool,
        r: Result<(), E>,
    ) -> bool {
        match r {
            Ok(_) => {
                &&& slot_loaded::<M, C0>(before.0@, after.0@, entity, components.0, ids, Ok(()))
                &&& slot_loaded::<M, C1>(before.1@, after.1@, entity, components.1, ids, Ok(()))
            },
            Err(err) => {
                let done1 = slot_loaded::<M, C0>(
                    before.0@,
                    after.0@,
                    entity,
                    components.0,
                    ids,
                    Ok(()),
                );
                let kept1 = after.1@ == before.1@;
                ||| slot_load_fails::<M, C0, E>(
                    before.0@,
                    after.0@,
                    entity,
                    components.0,
                    ids,
                    err,
                ) && kept1
                ||| done1 && slot_load_fails::<M, C1, E>(
                    before.1@,
                    after.1@,
                    entity,
                    components.1,
                    ids,
                    err,
                )
            },
        }
    }

    fn save<F>(
        entity: Entity,
        storages: &(Storage<C0>, Storage<C1>),
        mut ids: F,
    ) -> (r: Result<(Option<C0::Data>, Option<C1::Data>), E>) where
        F: FnMut(Entity) -> Option<M>,
     {
        let ghost asked = answers(ids);
        let d0 = match save_slot::<M, C0, F>(entity, &storages.0, &mut ids) {
            Ok(slot) => slot,
            Err(e) => {
                return Err(E::from(e));
            },
        };
        assert(slot_passes::<M, C0>(storages.0@, entity, asked));
        let d1 = match save_slot::<M, C1, F>(entity, &storages.1, &mut ids) {
            Ok(slot) => slot,
            Err(e) => {
                return Err(E::from(e));
            },
        };
        Ok((d0, d1))
    }

    fn load<F>(
        entity: Entity,
        components: (Option<C0::Data>, Option<C1::Data>),
        storages: &mut (Storage<C0>, Storage<C1>),
        mut ids: F,
    ) -> (r: Result<(), E>) where
        F: FnMut(M) -> Option<Entity>,
     {
        let (c0, c1) = components;
        match load_slot::<M, C0, F>(entity, c0, &mut storages.0, &mut ids) {
            Ok(_) => {},
            Err(e) => {
                return Err(E::from(e));
            },
        }
        match load_slot::<M, C1, F>(entity, c1, &mut storages.1, &mut ids) {
            Ok(_) => {},
            Err(e) => {
                return Err(E::from(e));
            },
        }
        Ok(())
    }
}

/// A list of three component types.
impl<C0: Component, C1: Component, C2: Component> Storages for (C0, C1, C2) {
    type ReadStorages = (Storage<C0>, Storage<C1>, Storage<C2>);

    type WriteStorages = (Storage<C0>, Storage<C1>, Storage<C2>);
}

impl<M, E, C0, C1, C2> Components<M, E> for (C0, C1, C2) where
    C0: SaveLoadComponent<M>,
    E: From<C0::Error>,
    C1: SaveLoadComponent<M>,
    E: From<C1::Error>,
    C2: SaveLoadComponent<M>,
    E: From<C2::Error>,
 {
    type Data = (Option<C0::Data>, Option<C1::Data>, Option<C2::Data>);

    open spec fn save_yields(
        entity: Entity,
        storages: &(Storage<C0>, Storage<C1>, Storage<C2>),
        ids: spec_fn(Entity, Option<M>) -> bool,
        r: Result<(Option<C0::Data>, Option<C1::Data>, Option<C2::Data>), E>,
    ) -> bool {
        match r {
            Ok(data) => {
                &&& slot_saved::<M, C0>(storages.0@, entity, ids, Ok(data.0))
                &&& slot_saved::<M, C1>(storages.1@, entity, ids, Ok(data.1))
                &&& slot_saved::<M, C2>(storages.2@, entity, ids, Ok(data.2))
            },
            Err(err) => {
                let reached1 = slot_passes::<M, C0>(storages.0@, entity, ids);
                let reached2 = reached1 && slot_passes::<M, C1>(storages.1@, entity, ids);
                ||| slot_save_fails::<M, C0, E>(storages.0@, entity, ids, err)
                ||| reached1 && slot_save_fails::<M, C1, E>(storages.1@, entity, ids, err)
                ||| reached2 && slot_save_fails::<M, C2, E>(storages.2@, entity, ids, err)
            },
        }
    }

    open spec fn load_yields(
        entity: Entity,
        components: (Option<C0::Data>, Option<C1::Data>, Option<C2::Data>),
        before: &(Storage<C0>, Storage<C1>, Storage<C2>),
        after: &(Storage<C0>, Storage<C1>, Storage<C2>),
        ids: spec_fn(M, Option<Entity>) -> bool,
        r: Result<(), E>,
    ) -> bool {
        match r {
            Ok(_) => {
                &&& slot_loaded::<M, C0>(before.0@, after.0@, entity, components.0, ids, Ok(()))
                &&& slot_loaded::<M, C1>(before.1@, after.1@, entity, components.1, ids, Ok(()))
                &&& slot_loaded::<M, C2>(before.2@, after.2@, entity, components.2, ids, Ok(()))
            },
            Err(err) => {
                let done1 = slot_loaded::<M, C0>(
                    before.0@,
                    after.0@,
                    entity,
                    components.0,
                    ids,
                    Ok(()),
                );
                let done2 = done1 && slot_loaded::<M, C1>(
                    before.1@,
                    after.1@,
                    entity,
                    components.1,
                    ids,
                    Ok(()),
                );
                let kept2 = after.2@ == before.2@;
                let kept1 = kept2 && after.1@ == before.1@;
                ||| slot_load_fails::<M, C0, E>(
                    before.0@,
                    after.0@,
                    entity,
                    components.0,
                    ids,
                    err,
                ) && kept1
                ||| done1 && slot_load_fails::<M, C1, E>(
                    before.1@,
                    after.1@,
                    entity,
                    components.1,
                    ids,
                    err,
                ) && kept2
                ||| done2 && slot_load_fails::<M, C2, E>(
                    before.2@,
                    after.2@,
                    entity,
                    components.2,
                    ids,
                    err,
                )
            },
        }
    }

    fn save<F>(
        entity: Entity,
        storages: &(Storage<C0>, Storage<C1>, Storage<C2>),
        mut ids: F,
    ) -> (r: Result<(Option<C0::Data>, Option<C1::Data>, Option<C2::Data>), E>) where
        F: FnMut(Entity) -> Option<M>,
     {
        let ghost asked = answers(ids);
        let d0 = match save_slot::<M, C0, F>(entity, &storages.0, &mut ids) {
            Ok(slot) => slot,
            Err(e) => {
                return Err(E::from(e));
            },
        };
        assert(slot_passes::<M, C0>(storages.0@, entity, asked));
        let d1 = match save_slot::<M, C1, F>(entity, &storages.1, &mut ids) {
            Ok(slot) => slot,
            Err(e) => {
                return Err(E::from(e));
            },
        };
        assert(slot_passes::<M, C1>(storages.1@, entity, asked));
        let d2 = match save_slot::<M, C2, F>(entity, &storages.2, &mut ids) {
            Ok(slot) => slot,
            Err(e) => {
                return Err(E::from(e));
            },
        };
        Ok((d0, d1, d2))
    }

    fn load<F>(
        entity: Entity,
        components: (Option<C0::Data>, Option<C1::Data>, Option<C2::Data>),
        storages: &mut (Storage<C0>, Storage<C1>, Storage<C2>),
        mut ids: F,
    ) -> (r: Result<(), E>) where
        F: FnMut(M) -> Option<Entity>,
     {
        let (c0, c1, c2) = components;
        match load_slot::<M, C0, F>(entity, c0, &mut storages.0, &mut ids) {
            Ok(_) => {},
            Err(e) => {
                return Err(E::from(e));
            },
        }
        match load_slot::<M, C1, F>(entity, c1, &mut storages.1, &mut ids) {
            Ok(_) => {},
            Err(e) => {
                return Err(E::from(e));
            },
        }
        match load_slot::<M, C2, F>(entity, c2, &mut storages.2, &mut ids) {
            Ok(_) => {},
            Err(e) => {
                return Err(E::from(e));
            },
        }
        Ok(())
    }
}

/// A list of four component types.
impl<C0: Component, C1: Component, C2: Component, C3: Component> Storages for (C0, C1, C2, C3) {
    type ReadStorages = (Storage<C0>, Storage<C1>, Storage<C2>, Storage<C3>);

    type WriteStorages = (Storage<C0>, Storage<C1>, Storage<C2>, Storage<C3>);
}

impl<M, E, C0, C1, C2, C3> Components<M, E> for (C0, C1, C2, C3) where
    C0: SaveLoadComponent<M>,
    E: From<C0::Error>,
    C1: SaveLoadComponent<M>,
    E: From<C1::Error>,
    C2: SaveLoadComponent<M>,
    E: From<C2::Error>,
    C3: SaveLoadComponent<M>,
    E: From<C3::Error>,
 {
    type Data = (Option<C0::Data>, Option<C1::Data>, Option<C2::Data>, Option<C3::Data>);

    open spec fn save_yields(
        entity: Entity,
        storages: &(Storage<C0>, Storage<C1>, Storage<C2>, Storage<C3>),
        ids: spec_fn(Entity, Option<M>) -> bool,
        r: Result<(Option<C0::Data>, Option<C1::Data>, Option<C2::Data>, Option<C3::Data>), E>,
    ) -> bool {
        match r {
            Ok(data) => {
                &&& slot_saved::<M, C0>(storages.0@, entity, ids, Ok(data.0))
                &&& slot_saved::<M, C1>(storages.1@, entity, ids, Ok(data.1))
                &&& slot_saved::<M, C2>(storages.2@, entity, ids, Ok(data.2))
                &&& slot_saved::<M, C3>(storages.3@, entity, ids, Ok(data.3))
            },
            Err(err) => {
                let reached1 = slot_passes::<M, C0>(storages.0@, entity, ids);
                let reached2 = reached1 && slot_passes::<M, C1>(storages.1@, entity, ids);
                let reached3 = reached2 && slot_passes::<M, C2>(storages.2@, entity, ids);
                ||| slot_save_fails::<M, C0, E>(storages.0@, entity, ids, err)
                ||| reached1 && slot_save_fails::<M, C1, E>(storages.1@, entity, ids, err)
                ||| reached2 && slot_save_fails::<M, C2, E>(storages.2@, entity, ids, err)
                ||| reached3 && slot_save_fails::<M, C3, E>(storages.3@, entity, ids, err)
            },
        }
    }

    open spec fn load_yields(
        entity: Entity,
        components: (Option<C0::Data>, Option<C1::Data>, Option<C2::Data>, Option<C3::Data>),
        before: &(Storage<C0>, Storage<C1>, Storage<C2>, Storage<C3>),
        after: &(Storage<C0>, Storage<C1>, Storage<C2>, Storage<C3>),
        ids: spec_fn(M, Option<Entity>) -> bool,
        r: Result<(), E>,
    ) -> bool {
        match r {
            Ok(_) => {
                &&& slot_loaded::<M, C0>(before.0@, after.0@, entity, components.0, ids, Ok(()))
                &&& slot_loaded::<M, C1>(before.1@, after.1@, entity, components.1, ids, Ok(()))
                &&& slot_loaded::<M, C2>(before.2@, after.2@, entity, components.2, ids, Ok(()))
                &&& slot_loaded::<M, C3>(before.3@, after.3@, entity, components.3, ids, Ok(()))
            },
            Err(err) => {
                let done1 = slot_loaded::<M, C0>(
                    before.0@,
                    after.0@,
                    entity,
                    components.0,
                    ids,
                    Ok(()),
                );
                let done2 = done1 && slot_loaded::<M, C1>(
                    before.1@,
                    after.1@,
                    entity,
                    components.1,
                    ids,
                    Ok(()),
                );
                let done3 = done2 && slot_loaded::<M, C2>(
                    before.2@,
                    after.2@,
                    entity,
                    components.2,
                    ids,
                    Ok(()),
                );
                let kept3 = after.3@ == before.3@;
                let kept2 = kept3 && after.2@ == before.2@;
                let kept1 = kept2 && after.1@ == before.1@;
                ||| slot_load_fails::<M, C0, E>(
                    before.0@,
                    after.0@,
                    entity,
                    components.0,
                    ids,
                    err,
                ) && kept1
                ||| done1 && slot_load_fails::<M, C1, E>(
                    before.1@,
                    after.1@,
                    entity,
                    components.1,
                    ids,
                    err,
                ) && kept2
                ||| done2 && slot_load_fails::<M, C2, E>(
                    before.2@,
                    after.2@,
                    entity,
                    components.2,
                    ids,
                    err,
                ) && kept3
                ||| done3 && slot_load_fails::<M, C3, E>(
                    before.3@,
                    after.3@,
                    entity,
                    components.3,
                    ids,
                    err,
                )
            },
        }
    }

    fn save<F>(
        entity: Entity,
        storages: &(Storage<C0>, Storage<C1>, Storage<C2>, Storage<C3>),
        mut ids: F,
    ) -> (r: Result<
        (Option<C0::Data>, Option<C1::Data>, Option<C2::Data>, Option<C3::Data>),
        E,
    >) where
        F: FnMut(Entity) -> Option<M>,
     {
        let ghost asked = answers(ids);
        let d0 = match save_slot::<M, C0, F>(entity, &storages.0, &mut ids) {
            Ok(slot) => slot,
            Err(e) => {
                return Err(E::from(e));
            },
        };
        assert(slot_passes::<M, C0>(storages.0@, entity, asked));
        let d1 = match save_slot::<M, C1, F>(entity, &storages.1, &mut ids) {
            Ok(slot) => slot,
            Err(e) => {
                return Err(E::from(e));
            },
        };
        assert(slot_passes::<M, C1>(storages.1@, entity, asked));
        let d2 = match save_slot::<M, C2, F>(entity, &storages.2, &mut ids) {
            Ok(slot) => slot,
            Err(e) => {
                return Err(E::from(e));
            },
        };
        assert(slot_passes::<M, C2>(storages.2@, entity, asked));
        let d3 = match save_slot::<M, C3, F>(entity, &storages.3, &mut ids) {
            Ok(slot) => slot,
            Err(e) => {
                return Err(E::from(e));
            },
        };
        Ok((d0, d1, d2, d3))
    }

    fn load<F>(
        entity: Entity,
        components: (Option<C0::Data>, Option<C1::Data>, Option<C2::Data>, Option<C3::Data>),
        storages: &mut (Storage<C0>, Storage<C1>, Storage<C2>, Storage<C3>),
        mut ids: F,
    ) -> (r: Result<(), E>) where
        F: FnMut(M) -> Option<Entity>,
     {
        let (c0, c1, c2, c3) = components;
        match load_slot::<M, C0, F>(entity, c0, &mut storages.0, &mut ids) {
            Ok(_) => {},
            Err(e) => {
                return Err(E::from(e));
            },
        }
        match load_slot::<M, C1, F>(entity, c1, &mut storages.1, &mut ids) {
            Ok(_) => {},
            Err(e) => {
                return Err(E::from(e));
            },
        }
        match load_slot::<M, C2, F>(entity, c2, &mut storages.2, &mut ids) {
            Ok(_) => {},
            Err(e) => {
                return Err(E::from(e));
            },
        }
        match load_slot::<M, C3, F>(entity, c3, &mut storages.3, &mut ids) {
            Ok(_) => {},
            Err(e) => {
                return Err(E::from(e));
            },
        }
        Ok(())
    }
}

} // verus!
