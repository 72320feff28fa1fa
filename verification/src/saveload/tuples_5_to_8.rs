//! Lists of five to eight component types.

use crate::saveload::details::{answers, Components, SaveLoadComponent, Storages};
use crate::saveload::slot::{
    load_slot, save_slot, slot_load_fails, slot_loaded, slot_passes, slot_save_fails, slot_saved,
};
use crate::storage::Storage;
use crate::world::{Component, Entity};
use vstd::prelude::*;

verus! {

/// A list of five component types.
impl<
    C0: Component, C1: Component, C2: Component, C3: Component, C4: Component,
> Storages for (C0, C1, C2, C3, C4) {
    type ReadStorages = (Storage<C0>, Storage<C1>, Storage<C2>, Storage<C3>, Storage<C4>);

    type WriteStorages = (Storage<C0>, Storage<C1>, Storage<C2>, Storage<C3>, Storage<C4>);
}

impl<M, E, C0, C1, C2, C3, C4> Components<M, E> for (C0, C1, C2, C3, C4) where
    C0: SaveLoadComponent<M>,
    E: From<C0::Error>,
    C1: SaveLoadComponent<M>,
    E: From<C1::Error>,
    C2: SaveLoadComponent<M>,
    E: From<C2::Error>,
    C3: SaveLoadComponent<M>,
    E: From<C3::Error>,
    C4: SaveLoadComponent<M>,
    E: From<C4::Error>,
 {
    type Data = (
        Option<C0::Data>, Option<C1::Data>, Option<C2::Data>, Option<C3::Data>, Option<C4::Data>,
    );

    open spec fn save_yields(
        entity: Entity,
        storages: &(Storage<C0>, Storage<C1>, Storage<C2>, Storage<C3>, Storage<C4>),
        ids: spec_fn(Entity, Option<M>) -> bool,
        r: Result<(
            Option<C0::Data>, Option<C1::Data>, Option<C2::Data>, Option<C3::Data>,
            Option<C4::Data>,
        ), E>,
    ) -> bool {
        match r {
            Ok(data) => {
                &&& slot_saved::<M, C0>(storages.0@, entity, ids, Ok(data.0))
                &&& slot_saved::<M, C1>(storages.1@, entity, ids, Ok(data.1))
                &&& slot_saved::<M, C2>(storages.2@, entity, ids, Ok(data.2))
                &&& slot_saved::<M, C3>(storages.3@, entity, ids, Ok(data.3))
                &&& slot_saved::<M, C4>(storages.4@, entity, ids, Ok(data.4))
            },
            Err(err) => {
                let reached1 = slot_passes::<M, C0>(storages.0@, entity, ids);
                let reached2 = reached1 && slot_passes::<M, C1>(storages.1@, entity, ids);
                let reached3 = reached2 && slot_passes::<M, C2>(storages.2@, entity, ids);
                let reached4 = reached3 && slot_passes::<M, C3>(storages.3@, entity, ids);
                ||| slot_save_fails::<M, C0, E>(storages.0@, entity, ids, err)
                ||| reached1 && slot_save_fails::<M, C1, E>(storages.1@, entity, ids, err)
                ||| reached2 && slot_save_fails::<M, C2, E>(storages.2@, entity, ids, err)
                ||| reached3 && slot_save_fails::<M, C3, E>(storages.3@, entity, ids, err)
                ||| reached4 && slot_save_fails::<M, C4, E>(storages.4@, entity, ids, err)
            },
        }
    }

    open spec fn load_yields(
        entity: Entity,
        components: (
            Option<C0::Data>, Option<C1::Data>, Option<C2::Data>, Option<C3::Data>,
            Option<C4::Data>,
        ),
        before: &(Storage<C0>, Storage<C1>, Storage<C2>, Storage<C3>, Storage<C4>),
        after: &(Storage<C0>, Storage<C1>, Storage<C2>, Storage<C3>, Storage<C4>),
        ids: spec_fn(M, Option<Entity>) -> bool,
        r: Result<(), E>,
    ) -> bool {
        match r {
            Ok(_) => {
                &&& slot_loaded::<M, C0>(before.0@, after.0@, entity, components.0, ids, Ok(()))
                &&& slot_loaded::<M, C1>(before.1@, after.1@, entity, components.1, ids, Ok(()))
                &&& slot_loaded::<M, C2>(before.2@, after.2@, entity, components.2, ids, Ok(()))
                &&& slot_loaded::<M, C3>(before.3@, after.3@, entity, components.3, ids, Ok(()))
                &&& slot_loaded::<M, C4>(before.4@, after.4@, entity, components.4, ids, Ok(()))
            },
            Err(err) => {
                let done1 = slot_loaded::<M, C0>(
                    before.0@,
                    after.0@,
                    entity,
                    components.0,
                    ids,
                    Ok(()),
                );
                let done2 = done1 && slot_loaded::<M, C1>(
                    before.1@,
                    after.1@,
                    entity,
                    components.1,
                    ids,
                    Ok(()),
                );
                let done3 = done2 && slot_loaded::<M, C2>(
                    before.2@,
                    after.2@,
                    entity,
                    components.2,
                    ids,
                    Ok(()),
                );
                let done4 = done3 && slot_loaded::<M, C3>(
                    before.3@,
                    after.3@,
                    entity,
                    components.3,
                    ids,
                    Ok(()),
                );
                let kept4 = after.4@ == before.4@;
                let kept3 = kept4 && after.3@ == before.3@;
                let kept2 = kept3 && after.2@ == before.2@;
                let kept1 = kept2 && after.1@ == before.1@;
                ||| slot_load_fails::<M, C0, E>(
                    before.0@,
                    after.0@,
                    entity,
                    components.0,
                    ids,
                    err,
                ) && kept1
                ||| done1 && slot_load_fails::<M, C1, E>(
                    before.1@,
                    after.1@,
                    entity,
                    components.1,
                    ids,
                    err,
                ) && kept2
                ||| done2 && slot_load_fails::<M, C2, E>(
                    before.2@,
                    after.2@,
                    entity,
                    components.2,
                    ids,
                    err,
                ) && kept3
                ||| done3 && slot_load_fails::<M, C3, E>(
                    before.3@,
                    after.3@,
                    entity,
                    components.3,
                    ids,
                    err,
                ) && kept4
                ||| done4 && slot_load_fails::<M, C4, E>(
                    before.4@,
                    after.4@,
                    entity,
                    components.4,
                    ids,
                    err,
                )
            },
        }
    }

    fn save<F>(
        entity: Entity,
        storages: &(Storage<C0>, Storage<C1>, Storage<C2>, Storage<C3>, Storage<C4>),
        mut ids: F,
    ) -> (r: Result<
        (
            Option<C0::Data>, Option<C1::Data>, Option<C2::Data>, Option<C3::Data>,
            Option<C4::Data>,
        ),
        E,
    >) where
        F: FnMut(Entity) -> Option<M>,
     {
        let ghost asked = answers(ids);
        let d0 = match save_slot::<M, C0, F>(entity, &storages.0, &mut ids) {
            Ok(slot) => slot,
            Err(e) => {
                return Err(E::from(e));
            },
        };
        assert(slot_passes::<M, C0>(storages.0@, entity, asked));
        let d1 = match save_slot::<M, C1, F>(entity, &storages.1, &mut ids) {
            Ok(slot) => slot,
            Err(e) => {
                return Err(E::from(e));
            },
        };
        assert(slot_passes::<M, C1>(storages.1@, entity, asked));
        let d2 = match save_slot::<M, C2, F>(entity, &storages.2, &mut ids) {
            Ok(slot) => slot,
            Err(e) => {
                return Err(E::from(e));
            },
        };
        assert(slot_passes::<M, C2>(storages.2@, entity, asked));
        let d3 = match save_slot::<M, C3, F>(entity, &storages.3, &mut ids) {
            Ok(slot) => slot,
            Err(e) => {
                return Err(E::from(e));
            },
        };
        assert(slot_passes::<M, C3>(storages.3@, entity, asked));
        let d4 = match save_slot::<M, C4, F>(entity, &storages.4, &mut ids) {
            Ok(slot) => slot,
            Err(e) => {
                return Err(E::from(e));
            },
        };
        Ok((d0, d1, d2, d3, d4))
    }

    fn load<F>(
        entity: Entity,
        components: (
            Option<C0::Data>, Option<C1::Data>, Option<C2::Data>, Option<C3::Data>,
            Option<C4::Data>,
        ),
        storages: &mut (Storage<C0>, Storage<C1>, Storage<C2>, Storage<C3>, Storage<C4>),
        mut ids: F,
    ) -> (r: Result<(), E>) where
        F: FnMut(M) -> Option<Entity>,
     {
        let (c0, c1, c2, c3, c4) = components;
        match load_slot::<M, C0, F>(entity, c0, &mut storages.0, &mut ids) {
            Ok(_) => {},
            Err(e) => {
                return Err(E::from(e));
            },
        }
        match load_slot::<M, C1, F>(entity, c1, &mut storages.1, &mut ids) {
            Ok(_) => {},
            Err(e) => {
                return Err(E::from(e));
            },
        }
        match load_slot::<M, C2, F>(entity, c2, &mut storages.2, &mut ids) {
            Ok(_) => {},
            Err(e) => {
                return Err(E::from(e));
            },
        }
        match load_slot::<M, C3, F>(entity, c3, &mut storages.3, &mut ids) {
            Ok(_) => {},
            Err(e) => {
                return Err(E::from(e));
            },
        }
        match load_slot::<M, C4, F>(entity, c4, &mut storages.4, &mut ids) {
            Ok(_) => {},
            Err(e) => {
                return Err(E::from(e));
            },
        }
        Ok(())
    }
}

/// A list of six component types.
impl<
    C0: Component, C1: Component, C2: Component, C3: Component, C4: Component, C5: Component,
> Storages for (C0, C1, C2, C3, C4, C5) {
    type ReadStorages = (
        Storage<C0>, Storage<C1>, Storage<C2>, Storage<C3>, Storage<C4>, Storage<C5>,
    );

    type WriteStorages = (
        Storage<C0>, Storage<C1>, Storage<C2>, Storage<C3>, Storage<C4>, Storage<C5>,
    );
}

impl<M, E, C0, C1, C2, C3, C4, C5> Components<M, E> for (C0, C1, C2, C3, C4, C5) where
    C0: SaveLoadComponent<M>,
    E: From<C0::Error>,
    C1: SaveLoadComponent<M>,
    E: From<C1::Error>,
    C2: SaveLoadComponent<M>,
    E: From<C2::Error>,
    C3: SaveLoadComponent<M>,
    E: From<C3::Error>,
    C4: SaveLoadComponent<M>,
    E: From<C4::Error>,
    C5: SaveLoadComponent<M>,
    E: From<C5::Error>,
 {
    type Data = (
        Option<C0::Data>, Option<C1::Data>, Option<C2::Data>, Option<C3::Data>, Option<C4::Data>,
        Option<C5::Data>,
    );

    open spec fn save_yields(
        entity: Entity,
        storages: &(
            Storage<C0>, Storage<C1>, Storage<C2>, Storage<C3>, Storage<C4>, Storage<C5>,
        ),
        ids: spec_fn(Entity, Option<M>) -> bool,
        r: Result<(
            Option<C0::Data>, Option<C1::Data>, Option<C2::Data>, Option<C3::Data>,
            Option<C4::Data>, Option<C5::Data>,
        ), E>,
    ) -> bool {
        match r {
            Ok(data) => {
                &&& slot_saved::<M, C0>(storages.0@, entity, ids, Ok(data.0))
                &&& slot_saved::<M, C1>(storages.1@, entity, ids, Ok(data.1))
                &&& slot_saved::<M, C2>(storages.2@, entity, ids, Ok(data.2))
                &&& slot_saved::<M, C3>(storages.3@, entity, ids, Ok(data.3))
                &&& slot_saved::<M, C4>(storages.4@, entity, ids, Ok(data.4))
                &&& slot_saved::<M, C5>(storages.5@, entity, ids, Ok(data.5))
            },
            Err(err) => {
                let reached1 = slot_passes::<M, C0>(storages.0@, entity, ids);
                let reached2 = reached1 && slot_passes::<M, C1>(storages.1@, entity, ids);
                let reached3 = reached2 && slot_passes::<M, C2>(storages.2@, entity, ids);
                let reached4 = reached3 && slot_passes::<M, C3>(storages.3@, entity, ids);
                let reached5 = reached4 && slot_passes::<M, C4>(storages.4@, entity, ids);
                ||| slot_save_fails::<M, C0, E>(storages.0@, entity, ids, err)
                ||| reached1 && slot_save_fails::<M, C1, E>(storages.1@, entity, ids, err)
                ||| reached2 && slot_save_fails::<M, C2, E>(storages.2@, entity, ids, err)
                ||| reached3 && slot_save_fails::<M, C3, E>(storages.3@, entity, ids, err)
                ||| reached4 && slot_save_fails::<M, C4, E>(storages.4@, entity, ids, err)
                ||| reached5 && slot_save_fails::<M, C5, E>(storages.5@, entity, ids, err)
            },
        }
    }

    open spec fn load_yields(
        entity: Entity,
        components: (
            Option<C0::Data>, Option<C1::Data>, Option<C2::Data>, Option<C3::Data>,
            Option<C4::Data>, Option<C5::Data>,
        ),
        before: &(
            Storage<C0>, Storage<C1>, Storage<C2>, Storage<C3>, Storage<C4>, Storage<C5>,
        ),
        after: &(
            Storage<C0>, Storage<C1>, Storage<C2>, Storage<C3>, Storage<C4>, Storage<C5>,
        ),
        ids: spec_fn(M, Option<Entity>) -> bool,
        r: Result<(), E>,
    ) -> bool {
        match r {
            Ok(_) => {
                &&& slot_loaded::<M, C0>(before.0@, after.0@, entity, components.0, ids, Ok(()))
                &&& slot_loaded::<M, C1>(before.1@, after.1@, entity, components.1, ids, Ok(()))
                &&& slot_loaded::<M, C2>(before.2@, after.2@, entity, components.2, ids, Ok(()))
                &&& slot_loaded::<M, C3>(before.3@, after.3@, entity, components.3, ids, Ok(()))
                &&& slot_loaded::<M, C4>(before.4@, after.4@, entity, components.4, ids, Ok(()))
                &&& slot_loaded::<M, C5>(before.5@, after.5@, entity, components.5, ids, Ok(()))
            },
            Err(err) => {
                let done1 = slot_loaded::<M, C0>(
                    before.0@,
                    after.0@,
                    entity,
                    components.0,
                    ids,
                    Ok(()),
                );
                let done2 = done1 && slot_loaded::<M, C1>(
                    before.1@,
                    after.1@,
                    entity,
                    components.1,
                    ids,
                    Ok(()),
                );
                let done3 = done2 && slot_loaded::<M, C2>(
                    before.2@,
                    after.2@,
                    entity,
                    components.2,
                    ids,
                    Ok(()),
                );
                let done4 = done3 && slot_loaded::<M, C3>(
                    before.3@,
                    after.3@,
                    entity,
                    components.3,
                    ids,
                    Ok(()),
                );
                let done5 = done4 && slot_loaded::<M, C4>(
                    before.4@,
                    after.4@,
                    entity,
                    components.4,
                    ids,
                    Ok(()),
                );
                let kept5 = after.5@ == before.5@;
                let kept4 = kept5 && after.4@ == before.4@;
                let kept3 = kept4 && after.3@ == before.3@;
                let kept2 = kept3 && after.2@ == before.2@;
                let kept1 = kept2 && after.1@ == before.1@;
                ||| slot_load_fails::<M, C0, E>(
                    before.0@,
                    after.0@,
                    entity,
                    components.0,
                    ids,
                    err,
                ) && kept1
                ||| done1 && slot_load_fails::<M, C1, E>(
                    before.1@,
                    after.1@,
                    entity,
                    components.1,
                    ids,
                    err,
                ) && kept2
                ||| done2 && slot_load_fails::<M, C2, E>(
                    before.2@,
                    after.2@,
                    entity,
                    components.2,
                    ids,
                    err,
                ) && kept3
                ||| done3 && slot_load_fails::<M, C3, E>(
                    before.3@,
                    after.3@,
                    entity,
                    components.3,
                    ids,
                    err,
                ) && kept4
                ||| done4 && slot_load_fails::<M, C4, E>(
                    before.4@,
                    after.4@,
                    entity,
                    components.4,
                    ids,
                    err,
                ) && kept5
                ||| done5 && slot_load_fails::<M, C5, E>(
                    before.5@,
                    after.5@,
                    entity,
                    components.5,
                    ids,
                    err,
                )
            },
        }
    }

    fn save<F>(
        entity: Entity,
        storages: &(
            Storage<C0>, Storage<C1>, Storage<C2>, Storage<C3>, Storage<C4>, Storage<C5>,
        ),
        mut ids: F,
    ) -> (r: Result<
        (
            Option<C0::Data>, Option<C1::Data>, Option<C2::Data>, Option<C3::Data>,
            Option<C4::Data>, Option<C5::Data>,
        ),
        E,
    >) where
        F: FnMut(Entity) -> Option<M>,
     {
        let ghost asked = answers(ids);
        let d0 = match save_slot::<M, C0, F>(entity, &storages.0, &mut ids) {
            Ok(slot) => slot,
            Err(e) => {
                return Err(E::from(e));
            },
        };
        assert(slot_passes::<M, C0>(storages.0@, entity, asked));
        let d1 = match save_slot::<M, C1, F>(entity, &storages.1, &mut ids) {
            Ok(slot) => slot,
            Err(e) => {
                return Err(E::from(e));
            },
        };
        assert(slot_passes::<M, C1>(storages.1@, entity, asked));
        let d2 = match save_slot::<M, C2, F>(entity, &storages.2, &mut ids) {
            Ok(slot) => slot,
            Err(e) => {
                return Err(E::from(e));
            },
        };
        assert(slot_passes::<M, C2>(storages.2@, entity, asked));
        let d3 = match save_slot::<M, C3, F>(entity, &storages.3, &mut ids) {
            Ok(slot) => slot,
            Err(e) => {
                return Err(E::from(e));
            },
        };
        assert(slot_passes::<M, C3>(storages.3@, entity, asked));
        let d4 = match save_slot::<M, C4, F>(entity, &storages.4, &mut ids) {
            Ok(slot) => slot,
            Err(e) => {
                return Err(E::from(e));
            },
        };
        assert(slot_passes::<M, C4>(storages.4@, entity, asked));
        let d5 = match save_slot::<M, C5, F>(entity, &storages.5, &mut ids) {
            Ok(slot) => slot,
            Err(e) => {
                return Err(E::from(e));
            },
        };
        Ok((d0, d1, d2, d3, d4, d5))
    }

    fn load<F>(
        entity: Entity,
        components: (
            Option<C0::Data>, Option<C1::Data>, Option<C2::Data>, Option<C3::Data>,
            Option<C4::Data>, Option<C5::Data>,
        ),
        storages: &mut (
            Storage<C0>, Storage<C1>, Storage<C2>, Storage<C3>, Storage<C4>, Storage<C5>,
        ),
        mut ids: F,
    ) -> (r: Result<(), E>) where
        F: FnMut(M) -> Option<Entity>,
     {
        let (c0, c1, c2, c3, c4, c5) = components;
        match load_slot::<M, C0, F>(entity, c0, &mut storages.0, &mut ids) {
            Ok(_) => {},
            Err(e) => {
                return Err(E::from(e));
            },
        }
        match load_slot::<M, C1, F>(entity, c1, &mut storages.1, &mut ids) {
            Ok(_) => {},
            Err(e) => {
                return Err(E::from(e));
            },
        }
        match load_slot::<M, C2, F>(entity, c2, &mut storages.2, &mut ids) {
            Ok(_) => {},
            Err(e) => {
                return Err(E::from(e));
            },
        }
        match load_slot::<M, C3, F>(entity, c3, &mut storages.3, &mut ids) {
            Ok(_) => {},
            Err(e) => {
                return Err(E::from(e));
            },
        }
        match load_slot::<M, C4, F>(entity, c4, &mut storages.4, &mut ids) {
            Ok(_) => {},
            Err(e) => {
                return Err(E::from(e));
            },
        }
        match load_slot::<M, C5, F>(entity, c5, &mut storages.5, &mut ids) {
            Ok(_) => {},
            Err(e) => {
                return Err(E::from(e));
            },
        }
        Ok(())
    }
}

/// A list of seven component types.
impl<
    C0: Component, C1: Component, C2: Component, C3: Component, C4: Component, C5: Component,
    C6: Component,
> Storages for (C0, C1, C2, C3, C4, C5, C6) {
    type ReadStorages = (
        Storage<C0>, Storage<C1>, Storage<C2>, Storage<C3>, Storage<C4>, Storage<C5>, Storage<C6>,
    );

    type WriteStorages = (
        Storage<C0>, Storage<C1>, Storage<C2>, Storage<C3>, Storage<C4>, Storage<C5>, Storage<C6>,
    );
}

impl<
    M, E, C0, C1, C2, C3, C4, C5, C6,
> Components<M, E> for (C0, C1, C2, C3, C4, C5, C6) where
    C0: SaveLoadComponent<M>,
    E: From<C0::Error>,
    C1: SaveLoadComponent<M>,
    E: From<C1::Error>,
    C2: SaveLoadComponent<M>,
    E: From<C2::Error>,
    C3: SaveLoadComponent<M>,
    E: From<C3::Error>,
    C4: SaveLoadComponent<M>,
    E: From<C4::Error>,
    C5: SaveLoadComponent<M>,
    E: From<C5::Error>,
    C6: SaveLoadComponent<M>,
    E: From<C6::Error>,
 {
    type Data = (
        Option<C0::Data>, Option<C1::Data>, Option<C2::Data>, Option<C3::Data>, Option<C4::Data>,
        Option<C5::Data>, Option<C6::Data>,
    );

    open spec fn save_yields(
        entity: Entity,
        storages: &(
            Storage<C0>, Storage<C1>, Storage<C2>, Storage<C3>, Storage<C4>, Storage<C5>,
            Storage<C6>,
        ),
        ids: spec_fn(Entity, Option<M>) -> bool,
        r: Result<(
            Option<C0::Data>, Option<C1::Data>, Option<C2::Data>, Option<C3::Data>,
            Option<C4::Data>, Option<C5::Data>, Option<C6::Data>,
        ), E>,
    ) -> bool {
        match r {
            Ok(data) => {
                &&& slot_saved::<M, C0>(storages.0@, entity, ids, Ok(data.0))
                &&& slot_saved::<M, C1>(storages.1@, entity, ids, Ok(data.1))
                &&& slot_saved::<M, C2>(storages.2@, entity, ids, Ok(data.2))
                &&& slot_saved::<M, C3>(storages.3@, entity, ids, Ok(data.3))
                &&& slot_saved::<M, C4>(storages.4@, entity, ids, Ok(data.4))
                &&& slot_saved::<M, C5>(storages.5@, entity, ids, Ok(data.5))
                &&& slot_saved::<M, C6>(storages.6@, entity, ids, Ok(data.6))
            },
            Err(err) => {
                let reached1 = slot_passes::<M, C0>(storages.0@, entity, ids);
                let reached2 = reached1 && slot_passes::<M, C1>(storages.1@, entity, ids);
                let reached3 = reached2 && slot_passes::<M, C2>(storages.2@, entity, ids);
                let reached4 = reached3 && slot_passes::<M, C3>(storages.3@, entity, ids);
                let reached5 = reached4 && slot_passes::<M, C4>(storages.4@, entity, ids);
                let reached6 = reached5 && slot_passes::<M, C5>(storages.5@, entity, ids);
                ||| slot_save_fails::<M, C0, E>(storages.0@, entity, ids, err)
                ||| reached1 && slot_save_fails::<M, C1, E>(storages.1@, entity, ids, err)
                ||| reached2 && slot_save_fails::<M, C2, E>(storages.2@, entity, ids, err)
                ||| reached3 && slot_save_fails::<M, C3, E>(storages.3@, entity, ids, err)
                ||| reached4 && slot_save_fails::<M, C4, E>(storages.4@, entity, ids, err)
                ||| reached5 && slot_save_fails::<M, C5, E>(storages.5@, entity, ids, err)
                ||| reached6 && slot_save_fails::<M, C6, E>(storages.6@, entity, ids, err)
            },
        }
    }

    open spec fn load_yields(
        entity: Entity,
        components: (
            Option<C0::Data>, Option<C1::Data>, Option<C2::Data>, Option<C3::Data>,
            Option<C4::Data>, Option<C5::Data>, Option<C6::Data>,
        ),
        before: &(
            Storage<C0>, Storage<C1>, Storage<C2>, Storage<C3>, Storage<C4>, Storage<C5>,
            Storage<C6>,
        ),
        after: &(
            Storage<C0>, Storage<C1>, Storage<C2>, Storage<C3>, Storage<C4>, Storage<C5>,
            Storage<C6>,
        ),
        ids: spec_fn(M, Option<Entity>) -> bool,
        r: Result<(), E>,
    ) -> bool {
        match r {
            Ok(_) => {
                &&& slot_loaded::<M, C0>(before.0@, after.0@, entity, components.0, ids, Ok(()))
                &&& slot_loaded::<M, C1>(before.1@, after.1@, entity, components.1, ids, Ok(()))
                &&& slot_loaded::<M, C2>(before.2@, after.2@, entity, components.2, ids, Ok(()))
                &&& slot_loaded::<M, C3>(before.3@, after.3@, entity, components.3, ids, Ok(()))
                &&& slot_loaded::<M, C4>(before.4@, after.4@, entity, components.4, ids, Ok(()))
                &&& slot_loaded::<M, C5>(before.5@, after.5@, entity, components.5, ids, Ok(()))
                &&& slot_loaded::<M, C6>(before.6@, after.6@, entity, components.6, ids, Ok(()))
            },
            Err(err) => {
                let done1 = slot_loaded::<M, C0>(
                    before.0@,
                    after.0@,
                    entity,
                    components.0,
                    ids,
                    Ok(()),
                );
                let done2 = done1 && slot_loaded::<M, C1>(
                    before.1@,
                    after.1@,
                    entity,
                    components.1,
                    ids,
                    Ok(()),
                );
                let done3 = done2 && slot_loaded::<M, C2>(
                    before.2@,
                    after.2@,
                    entity,
                    components.2,
                    ids,
                    Ok(()),
                );
                let done4 = done3 && slot_loaded::<M, C3>(
                    before.3@,
                    after.3@,
                    entity,
                    components.3,
                    ids,
                    Ok(()),
                );
                let done5 = done4 && slot_loaded::<M, C4>(
                    before.4@,
                    after.4@,
                    entity,
                    components.4,
                    ids,
                    Ok(()),
                );
                let done6 = done5 && slot_loaded::<M, C5>(
                    before.5@,
                    after.5@,
                    entity,
                    components.5,
                    ids,
                    Ok(()),
                );
                let kept6 = after.6@ == before.6@;
                let kept5 = kept6 && after.5@ == before.5@;
                let kept4 = kept5 && after.4@ == before.4@;
                let kept3 = kept4 && after.3@ == before.3@;
                let kept2 = kept3 && after.2@ == before.2@;
                let kept1 = kept2 && after.1@ == before.1@;
                ||| slot_load_fails::<M, C0, E>(
                    before.0@,
                    after.0@,
                    entity,
                    components.0,
                    ids,
                    err,
                ) && kept1
                ||| done1 && slot_load_fails::<M, C1, E>(
                    before.1@,
                    after.1@,
                    entity,
                    components.1,
                    ids,
                    err,
                ) && kept2
                ||| done2 && slot_load_fails::<M, C2, E>(
                    before.2@,
                    after.2@,
                    entity,
                    components.2,
                    ids,
                    err,
                ) && kept3
                ||| done3 && slot_load_fails::<M, C3, E>(
                    before.3@,
                    after.3@,
                    entity,
                    components.3,
                    ids,
                    err,
                ) && kept4
                ||| done4 && slot_load_fails::<M, C4, E>(
                    before.4@,
                    after.4@,
                    entity,
                    components.4,
                    ids,
                    err,
                ) && kept5
                ||| done5 && slot_load_fails::<M, C5, E>(
                    before.5@,
                    after.5@,
                    entity,
                    components.5,
                    ids,
                    err,
                ) && kept6
                ||| done6 && slot_load_fails::<M, C6, E>(
                    before.6@,
                    after.6@,
                    entity,
                    components.6,
                    ids,
                    err,
                )
            },
        }
    }

    fn save<F>(
        entity: Entity,
        storages: &(
            Storage<C0>, Storage<C1>, Storage<C2>, Storage<C3>, Storage<C4>, Storage<C5>,
            Storage<C6>,
        ),
        mut ids: F,
    ) -> (r: Result<
        (
            Option<C0::Data>, Option<C1::Data>, Option<C2::Data>, Option<C3::Data>,
            Option<C4::Data>, Option<C5::Data>, Option<C6::Data>,
        ),
        E,
    >) where
        F: FnMut(Entity) -> Option<M>,
     {
        let ghost asked = answers(ids);
        let d0 = match save_slot::<M, C0, F>(entity, &storages.0, &mut ids) {
            Ok(slot) => slot,
            Err(e) => {
                return Err(E::from(e));
            },
        };
        assert(slot_passes::<M, C0>(storages.0@, entity, asked));
        let d1 = match save_slot::<M, C1, F>(entity, &storages.1, &mut ids) {
            Ok(slot) => slot,
            Err(e) => {
                return Err(E::from(e));
            },
        };
        assert(slot_passes::<M, C1>(storages.1@, entity, asked));
        let d2 = match save_slot::<M, C2, F>(entity, &storages.2, &mut ids) {
            Ok(slot) => slot,
            Err(e) => {
                return Err(E::from(e));
            },
        };
        assert(slot_passes::<M, C2>(storages.2@, entity, asked));
        let d3 = match save_slot::<M, C3, F>(entity, &storages.3, &mut ids) {
            Ok(slot) => slot,
            Err(e) => {
                return Err(E::from(e));
            },
        };
        assert(slot_passes::<M, C3>(storages.3@, entity, asked));
        let d4 = match save_slot::<M, C4, F>(entity, &storages.4, &mut ids) {
            Ok(slot) => slot,
            Err(e) => {
                return Err(E::from(e));
            },
        };
        assert(slot_passes::<M, C4>(storages.4@, entity, asked));
        let d5 = match save_slot::<M, C5, F>(entity, &storages.5, &mut ids) {
            Ok(slot) => slot,
            Err(e) => {
                return Err(E::from(e));
            },
        };
        assert(slot_passes::<M, C5>(storages.5@, entity, asked));
        let d6 = match save_slot::<M, C6, F>(entity, &storages.6, &mut ids) {
            Ok(slot) => slot,
            Err(e) => {
                return Err(E::from(e));
            },
        };
        Ok((d0, d1, d2, d3, d4, d5, d6))
    }

    fn load<F>(
        entity: Entity,
        components: (
            Option<C0::Data>, Option<C1::Data>, Option<C2::Data>, Option<C3::Data>,
            Option<C4::Data>, Option<C5::Data>, Option<C6::Data>,
        ),
        storages: &mut (
            Storage<C0>, Storage<C1>, Storage<C2>, Storage<C3>, Storage<C4>, Storage<C5>,
            Storage<C6>,
        ),
        mut ids: F,
    ) -> (r: Result<(), E>) where
        F: FnMut(M) -> Option<Entity>,
     {
        let (c0, c1, c2, c3, c4, c5, c6) = components;
        match load_slot::<M, C0, F>(entity, c0, &mut storages.0, &mut ids) {
            Ok(_) => {},
            Err(e) => {
                return Err(E::from(e));
            },
        }
        match load_slot::<M, C1, F>(entity, c1, &mut storages.1, &mut ids) {
            Ok(_) => {},
            Err(e) => {
                return Err(E::from(e));
            },
        }
        match load_slot::<M, C2, F>(entity, c2, &mut storages.2, &mut ids) {
            Ok(_) => {},
            Err(e) => {
                return Err(E::from(e));
            },
        }
        match load_slot::<M, C3, F>(entity, c3, &mut storages.3, &mut ids) {
            Ok(_) => {},
            Err(e) => {
                return Err(E::from(e));
            },
        }
        match load_slot::<M, C4, F>(entity, c4, &mut storages.4, &mut ids) {
            Ok(_) => {},
            Err(e) => {
                return Err(E::from(e));
            },
        }
        match load_slot::<M, C5, F>(entity, c5, &mut storages.5, &mut ids) {
            Ok(_) => {},
            Err(e) => {
                return Err(E::from(e));
            },
        }
        match load_slot::<M, C6, F>(entity, c6, &mut storages.6, &mut ids) {
            Ok(_) => {},
            Err(e) => {
                return Err(E::from(e));
            },
        }
        Ok(())
    }
}

/// A list of eight component types.
impl<
    C0: Component, C1: Component, C2: Component, C3: Component, C4: Component, C5: Component,
    C6: Component, C7: Component,
> Storages for (C0, C1, C2, C3, C4, C5, C6, C7) {
    type ReadStorages = (
        Storage<C0>, Storage<C1>, Storage<C2>, Storage<C3>, Storage<C4>, Storage<C5>, Storage<C6>,
        Storage<C7>,
    );

    type WriteStorages = (
        Storage<C0>, Storage<C1>, Storage<C2>, Storage<C3>, Storage<C4>, Storage<C5>, Storage<C6>,
        Storage<C7>,
    );
}

impl<
    M, E, C0, C1, C2, C3, C4, C5, C6, C7,
> Components<M, E> for (C0, C1, C2, C3, C4, C5, C6, C7) where
    C0: SaveLoadComponent<M>,
    E: From<C0::Error>,
    C1: SaveLoadComponent<M>,
    E: From<C1::Error>,
    C2: SaveLoadComponent<M>,
    E: From<C2::Error>,
    C3: SaveLoadComponent<M>,
    E: From<C3::Error>,
    C4: SaveLoadComponent<M>,
    E: From<C4::Error>,
    C5: SaveLoadComponent<M>,
    E: From<C5::Error>,
    C6: SaveLoadComponent<M>,
    E: From<C6::Error>,
    C7: SaveLoadComponent<M>,
    E: From<C7::Error>,
 {
    type Data = (
        Option<C0::Data>, Option<C1::Data>, Option<C2::Data>, Option<C3::Data>, Option<C4::Data>,
        Option<C5::Data>, Option<C6::Data>, Option<C7::Data>,
    );

    open spec fn save_yields(
        entity: Entity,
        storages: &(
            Storage<C0>, Storage<C1>, Storage<C2>, Storage<C3>, Storage<C4>, Storage<C5>,
            Storage<C6>, Storage<C7>,
        ),
        ids: spec_fn(Entity, Option<M>) -> bool,
        r: Result<(
            Option<C0::Data>, Option<C1::Data>, Option<C2::Data>, Option<C3::Data>,
            Option<C4::Data>, Option<C5::Data>, Option<C6::Data>, Option<C7::Data>,
        ), E>,
    ) -> bool {
        match r {
            Ok(data) => {
                &&& slot_saved::<M, C0>(storages.0@, entity, ids, Ok(data.0))
                &&& slot_saved::<M, C1>(storages.1@, entity, ids, Ok(data.1))
                &&& slot_saved::<M, C2>(storages.2@, entity, ids, Ok(data.2))
                &&& slot_saved::<M, C3>(storages.3@, entity, ids, Ok(data.3))
                &&& slot_saved::<M, C4>(storages.4@, entity, ids, Ok(data.4))
                &&& slot_saved::<M, C5>(storages.5@, entity, ids, Ok(data.5))
                &&& slot_saved::<M, C6>(storages.6@, entity, ids, Ok(data.6))
                &&& slot_saved::<M, C7>(storages.7@, entity, ids, Ok(data.7))
            },
            Err(err) => {
                let reached1 = slot_passes::<M, C0>(storages.0@, entity, ids);
                let reached2 = reached1 && slot_passes::<M, C1>(storages.1@, entity, ids);
                let reached3 = reached2 && slot_passes::<M, C2>(storages.2@, entity, ids);
                let reached4 = reached3 && slot_passes::<M, C3>(storages.3@, entity, ids);
                let reached5 = reached4 && slot_passes::<M, C4>(storages.4@, entity, ids);
                let reached6 = reached5 && slot_passes::<M, C5>(storages.5@, entity, ids);
                let reached7 = reached6 && slot_passes::<M, C6>(storages.6@, entity, ids);
                ||| slot_save_fails::<M, C0, E>(storages.0@, entity, ids, err)
                ||| reached1 && slot_save_fails::<M, C1, E>(storages.1@, entity, ids, err)
                ||| reached2 && slot_save_fails::<M, C2, E>(storages.2@, entity, ids, err)
                ||| reached3 && slot_save_fails::<M, C3, E>(storages.3@, entity, ids, err)
                ||| reached4 && slot_save_fails::<M, C4, E>(storages.4@, entity, ids, err)
                ||| reached5 && slot_save_fails::<M, C5, E>(storages.5@, entity, ids, err)
                ||| reached6 && slot_save_fails::<M, C6, E>(storages.6@, entity, ids, err)
                ||| reached7 && slot_save_fails::<M, C7, E>(storages.7@, entity, ids, err)
            },
        }
    }

    open spec fn load_yields(
        entity: Entity,
        components: (
            Option<C0::Data>, Option<C1::Data>, Option<C2::Data>, Option<C3::Data>,
            Option<C4::Data>, Option<C5::Data>, Option<C6::Data>, Option<C7::Data>,
        ),
        before: &(
            Storage<C0>, Storage<C1>, Storage<C2>, Storage<C3>, Storage<C4>, Storage<C5>,
            Storage<C6>, Storage<C7>,
        ),
        after: &(
            Storage<C0>, Storage<C1>, Storage<C2>, Storage<C3>, Storage<C4>, Storage<C5>,
            Storage<C6>, Storage<C7>,
        ),
        ids: spec_fn(M, Option<Entity>) -> bool,
        r: Result<(), E>,
    ) -> bool {
        match r {
            Ok(_) => {
                &&& slot_loaded::<M, C0>(before.0@, after.0@, entity, components.0, ids, Ok(()))
                &&& slot_loaded::<M, C1>(before.1@, after.1@, entity, components.1, ids, Ok(()))
                &&& slot_loaded::<M, C2>(before.2@, after.2@, entity, components.2, ids, Ok(()))
                &&& slot_loaded::<M, C3>(before.3@, after.3@, entity, components.3, ids, Ok(()))
                &&& slot_loaded::<M, C4>(before.4@, after.4@, entity, components.4, ids, Ok(()))
                &&& slot_loaded::<M, C5>(before.5@, after.5@, entity, components.5, ids, Ok(()))
                &&& slot_loaded::<M, C6>(before.6@, after.6@, entity, components.6, ids, Ok(()))
                &&& slot_loaded::<M, C7>(before.7@, after.7@, entity, components.7, ids, Ok(()))
            },
            Err(err) => {
                let done1 = slot_loaded::<M, C0>(
                    before.0@,
                    after.0@,
                    entity,
                    components.0,
                    ids,
                    Ok(()),
                );
                let done2 = done1 && slot_loaded::<M, C1>(
                    before.1@,
                    after.1@,
                    entity,
                    components.1,
                    ids,
                    Ok(()),
                );
                let done3 = done2 && slot_loaded::<M, C2>(
                    before.2@,
                    after.2@,
                    entity,
                    components.2,
                    ids,
                    Ok(()),
                );
                let done4 = done3 && slot_loaded::<M, C3>(
                    before.3@,
                    after.3@,
                    entity,
                    components.3,
                    ids,
                    Ok(()),
                );
                let done5 = done4 && slot_loaded::<M, C4>(
                    before.4@,
                    after.4@,
                    entity,
                    components.4,
                    ids,
                    Ok(()),
                );
                let done6 = done5 && slot_loaded::<M, C5>(
                    before.5@,
                    after.5@,
                    entity,
                    components.5,
                    ids,
                    Ok(()),
                );
                let done7 = done6 && slot_loaded::<M, C6>(
                    before.6@,
                    after.6@,
                    entity,
                    components.6,
                    ids,
                    Ok(()),
                );
                let kept7 = after.7@ == before.7@;
                let kept6 = kept7 && after.6@ == before.6@;
                let kept5 = kept6 && after.5@ == before.5@;
                let kept4 = kept5 && after.4@ == before.4@;
                let kept3 = kept4 && after.3@ == before.3@;
                let kept2 = kept3 && after.2@ == before.2@;
                let kept1 = kept2 && after.1@ == before.1@;
                ||| slot_load_fails::<M, C0, E>(
                    before.0@,
                    after.0@,
                    entity,
                    components.0,
                    ids,
                    err,
                ) && kept1
                ||| done1 && slot_load_fails::<M, C1, E>(
                    before.1@,
                    after.1@,
                    entity,
                    components.1,
                    ids,
                    err,
                ) && kept2
                ||| done2 && slot_load_fails::<M, C2, E>(
                    before.2@,
                    after.2@,
                    entity,
                    components.2,
                    ids,
                    err,
                ) && kept3
                ||| done3 && slot_load_fails::<M, C3, E>(
                    before.3@,
                    after.3@,
                    entity,
                    components.3,
                    ids,
                    err,
                ) && kept4
                ||| done4 && slot_load_fails::<M, C4, E>(
                    before.4@,
                    after.4@,
                    entity,
                    components.4,
                    ids,
                    err,
                ) && kept5
                ||| done5 && slot_load_fails::<M, C5, E>(
                    before.5@,
                    after.5@,
                    entity,
                    components.5,
                    ids,
                    err,
                ) && kept6
                ||| done6 && slot_load_fails::<M, C6, E>(
                    before.6@,
                    after.6@,
                    entity,
                    components.6,
                    ids,
                    err,
                ) && kept7
                ||| done7 && slot_load_fails::<M, C7, E>(
                    before.7@,
                    after.7@,
                    entity,
                    components.7,
                    ids,
                    err,
                )
            },
        }
    }

    fn save<F>(
        entity: Entity,
        storages: &(
            Storage<C0>, Storage<C1>, Storage<C2>, Storage<C3>, Storage<C4>, Storage<C5>,
            Storage<C6>, Storage<C7>,
        ),
        mut ids: F,
    ) -> (r: Result<
        (
            Option<C0::Data>, Option<C1::Data>, Option<C2::Data>, Option<C3::Data>,
            Option<C4::Data>, Option<C5::Data>, Option<C6::Data>, Option<C7::Data>,
        ),
        E,
    >) where
        F: FnMut(Entity) -> Option<M>,
     {
        let ghost asked = answers(ids);
        let d0 = match save_slot::<M, C0, F>(entity, &storages.0, &mut ids) {
            Ok(slot) => slot,
            Err(e) => {
                return Err(E::from(e));
            },
        };
        assert(slot_passes::<M, C0>(storages.0@, entity, asked));
        let d1 = match save_slot::<M, C1, F>(entity, &storages.1, &mut ids) {
            Ok(slot) => slot,
            Err(e) => {
                return Err(E::from(e));
            },
        };
        assert(slot_passes::<M, C1>(storages.1@, entity, asked));
        let d2 = match save_slot::<M, C2, F>(entity, &storages.2, &mut ids) {
            Ok(slot) => slot,
            Err(e) => {
                return Err(E::from(e));
            },
        };
        assert(slot_passes::<M, C2>(storages.2@, entity, asked));
        let d3 = match save_slot::<M, C3, F>(entity, &storages.3, &mut ids) {
            Ok(slot) => slot,
            Err(e) => {
                return Err(E::from(e));
            },
        };
        assert(slot_passes::<M, C3>(storages.3@, entity, asked));
        let d4 = match save_slot::<M, C4, F>(entity, &storages.4, &mut ids) {
            Ok(slot) => slot,
            Err(e) => {
                return Err(E::from(e));
            },
        };
        assert(slot_passes::<M, C4>(storages.4@, entity, asked));
        let d5 = match save_slot::<M, C5, F>(entity, &storages.5, &mut ids) {
            Ok(slot) => slot,
            Err(e) => {
                return Err(E::from(e));
            },
        };
        assert(slot_passes::<M, C5>(storages.5@, entity, asked));
        let d6 = match save_slot::<M, C6, F>(entity, &storages.6, &mut ids) {
            Ok(slot) => slot,
            Err(e) => {
                return Err(E::from(e));
            },
        };
        assert(slot_passes::<M, C6>(storages.6@, entity, asked));
        let d7 = match save_slot::<M, C7, F>(entity, &storages.7, &mut ids) {
            Ok(slot) => slot,
            Err(e) => {
                return Err(E::from(e));
            },
        };
        Ok((d0, d1, d2, d3, d4, d5, d6, d7))
    }

    fn load<F>(
        entity: Entity,
        components: (
            Option<C0::Data>, Option<C1::Data>, Option<C2::Data>, Option<C3::Data>,
            Option<C4::Data>, Option<C5::Data>, Option<C6::Data>, Option<C7::Data>,
        ),
        storages: &mut (
            Storage<C0>, Storage<C1>, Storage<C2>, Storage<C3>, Storage<C4>, Storage<C5>,
            Storage<C6>, Storage<C7>,
        ),
        mut ids: F,
    ) -> (r: Result<(), E>) where
        F: FnMut(M) -> Option<Entity>,
     {
        let (c0, c1, c2, c3, c4, c5, c6, c7) = components;
        match load_slot::<M, C0, F>(entity, c0, &mut storages.0, &mut ids) {
            Ok(_) => {},
            Err(e) => {
                return Err(E::from(e));
            },
        }
        match load_slot::<M, C1, F>(entity, c1, &mut storages.1, &mut ids) {
            Ok(_) => {},
            Err(e) => {
                return Err(E::from(e));
            },
        }
        match load_slot::<M, C2, F>(entity, c2, &mut storages.2, &mut ids) {
            Ok(_) => {},
            Err(e) => {
                return Err(E::from(e));
            },
        }
        match load_slot::<M, C3, F>(entity, c3, &mut storages.3, &mut ids) {
            Ok(_) => {},
            Err(e) => {
                return Err(E::from(e));
            },
        }
        match load_slot::<M, C4, F>(entity, c4, &mut storages.4, &mut ids) {
            Ok(_) => {},
            Err(e) => {
                return Err(E::from(e));
            },
        }
        match load_slot::<M, C5, F>(entity, c5, &mut storages.5, &mut ids) {
            Ok(_) => {},
            Err(e) => {
                return Err(E::from(e));
            },
        }
        match load_slot::<M, C6, F>(entity, c6, &mut storages.6, &mut ids) {
            Ok(_) => {},
            Err(e) => {
                return Err(E::from(e));
            },
        }
        match load_slot::<M, C7, F>(entity, c7, &mut storages.7, &mut ids) {
            Ok(_) => {},
            Err(e) => {
                return Err(E::from(e));
            },
        }
        Ok(())
    }
}

} // verus!
