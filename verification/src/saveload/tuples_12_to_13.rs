//! Lists of twelve to thirteen component types.

use crate::saveload::details::{answers, Components, SaveLoadComponent, Storages};
use crate::saveload::slot::{
    load_slot, save_slot, slot_load_fails, slot_loaded, slot_passes, slot_save_fails, slot_saved,
};
use crate::storage::Storage;
use crate::world::{Component, Entity};
use vstd::prelude::*;

verus! {

/// A list of twelve component types.
impl<
    C0: Component, C1: Component, C2: Component, C3: Component, C4: Component, C5: Component,
    C6: Component, C7: Component, C8: Component, C9: Component, C10: Component, C11: Component,
> Storages for (
    C0, C1, C2, C3, C4, C5, C6, C7, C8, C9, C10, C11,
) {
    type ReadStorages = (
        Storage<C0>, Storage<C1>, Storage<C2>, Storage<C3>, Storage<C4>, Storage<C5>, Storage<C6>,
        Storage<C7>, Storage<C8>, Storage<C9>, Storage<C10>, Storage<C11>,
    );

    type WriteStorages = (
        Storage<C0>, Storage<C1>, Storage<C2>, Storage<C3>, Storage<C4>, Storage<C5>, Storage<C6>,
        Storage<C7>, Storage<C8>, Storage<C9>, Storage<C10>, Storage<C11>,
    );
}

impl<
    M, E, C0, C1, C2, C3, C4, C5, C6, C7, C8, C9, C10, C11,
> Components<M, E> for (
    C0, C1, C2, C3, C4, C5, C6, C7, C8, C9, C10, C11,
) where
    C0: SaveLoadComponent<M>,
    E: From<C0::Error>,
    C1: SaveLoadComponent<M>,
    E: From<C1::Error>,
    C2: SaveLoadComponent<M>,
    E: From<C2::Error>,
    C3: SaveLoadComponent<M>,
    E: From<C3::Error>,
    C4: SaveLoadComponent<M>,
    E: From<C4::Error>,
    C5: SaveLoadComponent<M>,
    E: From<C5::Error>,
    C6: SaveLoadComponent<M>,
    E: From<C6::Error>,
    C7: SaveLoadComponent<M>,
    E: From<C7::Error>,
    C8: SaveLoadComponent<M>,
    E: From<C8::Error>,
    C9: SaveLoadComponent<M>,
    E: From<C9::Error>,
    C10: SaveLoadComponent<M>,
    E: From<C10::Error>,
    C11: SaveLoadComponent<M>,
    E: From<C11::Error>,
 {
    type Data = (
        Option<C0::Data>, Option<C1::Data>, Option<C2::Data>, Option<C3::Data>, Option<C4::Data>,
        Option<C5::Data>, Option<C6::Data>, Option<C7::Data>, Option<C8::Data>, Option<C9::Data>,
        Option<C10::Data>, Option<C11::Data>,
    );

    open spec fn save_yields(
        entity: Entity,
        storages: &(
            Storage<C0>, Storage<C1>, Storage<C2>, Storage<C3>, Storage<C4>, Storage<C5>,
            Storage<C6>, Storage<C7>, Storage<C8>, Storage<C9>, Storage<C10>, Storage<C11>,
        ),
        ids: spec_fn(Entity, Option<M>) -> bool,
        r: Result<(
            Option<C0::Data>, Option<C1::Data>, Option<C2::Data>, Option<C3::Data>,
            Option<C4::Data>, Option<C5::Data>, Option<C6::Data>, Option<C7::Data>,
            Option<C8::Data>, Option<C9::Data>, Option<C10::Data>, Option<C11::Data>,
        ), E>,
    ) -> bool {
        match r {
            Ok(data) => {
                &&& slot_saved::<M, C0>(storages.0@, entity, ids, Ok(data.0))
                &&& slot_saved::<M, C1>(storages.1@, entity, ids, Ok(data.1))
                &&& slot_saved::<M, C2>(storages.2@, entity, ids, Ok(data.2))
                &&& slot_saved::<M, C3>(storages.3@, entity, ids, Ok(data.3))
                &&& slot_saved::<M, C4>(storages.4@, entity, ids, Ok(data.4))
                &&& slot_saved::<M, C5>(storages.5@, entity, ids, Ok(data.5))
                &&& slot_saved::<M, C6>(storages.6@, entity, ids, Ok(data.6))
                &&& slot_saved::<M, C7>(storages.7@, entity, ids, Ok(data.7))
                &&& slot_saved::<M, C8>(storages.8@, entity, ids, Ok(data.8))
                &&& slot_saved::<M, C9>(storages.9@, entity, ids, Ok(data.9))
                &&& slot_saved::<M, C10>(storages.10@, entity, ids, Ok(data.10))
                &&& slot_saved::<M, C11>(storages.11@, entity, ids, Ok(data.11))
            },
            Err(err) => {
                let reached1 = slot_passes::<M, C0>(storages.0@, entity, ids);
                let reached2 = reached1 && slot_passes::<M, C1>(storages.1@, entity, ids);
                let reached3 = reached2 && slot_passes::<M, C2>(storages.2@, entity, ids);
                let reached4 = reached3 && slot_passes::<M, C3>(storages.3@, entity, ids);
                let reached5 = reached4 && slot_passes::<M, C4>(storages.4@, entity, ids);
                let reached6 = reached5 && slot_passes::<M, C5>(storages.5@, entity, ids);
                let reached7 = reached6 && slot_passes::<M, C6>(storages.6@, entity, ids);
                let reached8 = reached7 && slot_passes::<M, C7>(storages.7@, entity, ids);
                let reached9 = reached8 && slot_passes::<M, C8>(storages.8@, entity, ids);
                let reached10 = reached9 && slot_passes::<M, C9>(storages.9@, entity, ids);
                let reached11 = reached10 && slot_passes::<M, C10>(storages.10@, entity, ids);
                ||| slot_save_fails::<M, C0, E>(storages.0@, entity, ids, err)
                ||| reached1 && slot_save_fails::<M, C1, E>(storages.1@, entity, ids, err)
                ||| reached2 && slot_save_fails::<M, C2, E>(storages.2@, entity, ids, err)
                ||| reached3 && slot_save_fails::<M, C3, E>(storages.3@, entity, ids, err)
                ||| reached4 && slot_save_fails::<M, C4, E>(storages.4@, entity, ids, err)
                ||| reached5 && slot_save_fails::<M, C5, E>(storages.5@, entity, ids, err)
                ||| reached6 && slot_save_fails::<M, C6, E>(storages.6@, entity, ids, err)
                ||| reached7 && slot_save_fails::<M, C7, E>(storages.7@, entity, ids, err)
                ||| reached8 && slot_save_fails::<M, C8, E>(storages.8@, entity, ids, err)
                ||| reached9 && slot_save_fails::<M, C9, E>(storages.9@, entity, ids, err)
                ||| reached10 && slot_save_fails::<M, C10, E>(storages.10@, entity, ids, err)
                ||| reached11 && slot_save_fails::<M, C11, E>(storages.11@, entity, ids, err)
            },
        }
    }

    open spec fn load_yields(
        entity: Entity,
        components: (
            Option<C0::Data>, Option<C1::Data>, Option<C2::Data>, Option<C3::Data>,
            Option<C4::Data>, Option<C5::Data>, Option<C6::Data>, Option<C7::Data>,
            Option<C8::Data>, Option<C9::Data>, Option<C10::Data>, Option<C11::Data>,
        ),
        before: &(
            Storage<C0>, Storage<C1>, Storage<C2>, Storage<C3>, Storage<C4>, Storage<C5>,
            Storage<C6>, Storage<C7>, Storage<C8>, Storage<C9>, Storage<C10>, Storage<C11>,
        ),
        after: &(
            Storage<C0>, Storage<C1>, Storage<C2>, Storage<C3>, Storage<C4>, Storage<C5>,
            Storage<C6>, Storage<C7>, Storage<C8>, Storage<C9>, Storage<C10>, Storage<C11>,
        ),
        ids: spec_fn(M, Option<Entity>) -> bool,
        r: Result<(), E>,
    ) -> bool {
        match r {
            Ok(_) => {
                &&& slot_loaded::<M, C0>(before.0@, after.0@, entity, components.0, ids, Ok(()))
                &&& slot_loaded::<M, C1>(before.1@, after.1@, entity, components.1, ids, Ok(()))
                &&& slot_loaded::<M, C2>(before.2@, after.2@, entity, components.2, ids, Ok(()))
                &&& slot_loaded::<M, C3>(before.3@, after.3@, entity, components.3, ids, Ok(()))
                &&& slot_loaded::<M, C4>(before.4@, after.4@, entity, components.4, ids, Ok(()))
                &&& slot_loaded::<M, C5>(before.5@, after.5@, entity, components.5, ids, Ok(()))
                &&& slot_loaded::<M, C6>(before.6@, after.6@, entity, components.6, ids, Ok(()))
                &&& slot_loaded::<M, C7>(before.7@, after.7@, entity, components.7, ids, Ok(()))
                &&& slot_loaded::<M, C8>(before.8@, after.8@, entity, components.8, ids, Ok(()))
                &&& slot_loaded::<M, C9>(before.9@, after.9@, entity, components.9, ids, Ok(()))
                &&& slot_loaded::<M, C10>(before.10@, after.10@, entity, components.10, ids, Ok(()))
                &&& slot_loaded::<M, C11>(before.11@, after.11@, entity, components.11, ids, Ok(()))
            },
            Err(err) => {
                let done1 = slot_loaded::<M, C0>(
                    before.0@,
                    after.0@,
                    entity,
                    components.0,
                    ids,
                    Ok(()),
                );
                let done2 = done1 && slot_loaded::<M, C1>(
                    before.1@,
                    after.1@,
                    entity,
                    components.1,
                    ids,
                    Ok(()),
                );
                let done3 = done2 && slot_loaded::<M, C2>(
                    before.2@,
                    after.2@,
                    entity,
                    components.2,
                    ids,
                    Ok(()),
                );
                let done4 = done3 && slot_loaded::<M, C3>(
                    before.3@,
                    after.3@,
                    entity,
                    components.3,
                    ids,
                    Ok(()),
                );
                let done5 = done4 && slot_loaded::<M, C4>(
                    before.4@,
                    after.4@,
                    entity,
                    components.4,
                    ids,
                    Ok(()),
                );
                let done6 = done5 && slot_loaded::<M, C5>(
                    before.5@,
                    after.5@,
                    entity,
                    components.5,
                    ids,
                    Ok(()),
                );
                let done7 = done6 && slot_loaded::<M, C6>(
                    before.6@,
                    after.6@,
                    entity,
                    components.6,
                    ids,
                    Ok(()),
                );
                let done8 = done7 && slot_loaded::<M, C7>(
                    before.7@,
                    after.7@,
                    entity,
                    components.7,
                    ids,
                    Ok(()),
                );
                let done9 = done8 && slot_loaded::<M, C8>(
                    before.8@,
                    after.8@,
                    entity,
                    components.8,
                    ids,
                    Ok(()),
                );
                let done10 = done9 && slot_loaded::<M, C9>(
                    before.9@,
                    after.9@,
                    entity,
                    components.9,
                    ids,
                    Ok(()),
                );
                let done11 = done10 && slot_loaded::<M, C10>(
                    before.10@,
                    after.10@,
                    entity,
                    components.10,
                    ids,
                    Ok(()),
                );
                let kept11 = after.11@ == before.11@;
                let kept10 = kept11 && after.10@ == before.10@;
                let kept9 = kept10 && after.9@ == before.9@;
                let kept8 = kept9 && after.8@ == before.8@;
                let kept7 = kept8 && after.7@ == before.7@;
                let kept6 = kept7 && after.6@ == before.6@;
                let kept5 = kept6 && after.5@ == before.5@;
                let kept4 = kept5 && after.4@ == before.4@;
                let kept3 = kept4 && after.3@ == before.3@;
                let kept2 = kept3 && after.2@ == before.2@;
                let kept1 = kept2 && after.1@ == before.1@;
                ||| slot_load_fails::<M, C0, E>(
                    before.0@,
                    after.0@,
                    entity,
                    components.0,
                    ids,
                    err,
                ) && kept1
                ||| done1 && slot_load_fails::<M, C1, E>(
                    before.1@,
                    after.1@,
                    entity,
                    components.1,
                    ids,
                    err,
                ) && kept2
                ||| done2 && slot_load_fails::<M, C2, E>(
                    before.2@,
                    after.2@,
                    entity,
                    components.2,
                    ids,
                    err,
                ) && kept3
                ||| done3 && slot_load_fails::<M, C3, E>(
                    before.3@,
                    after.3@,
                    entity,
                    components.3,
                    ids,
                    err,
                ) && kept4
                ||| done4 && slot_load_fails::<M, C4, E>(
                    before.4@,
                    after.4@,
                    entity,
                    components.4,
                    ids,
                    err,
                ) && kept5
                ||| done5 && slot_load_fails::<M, C5, E>(
                    before.5@,
                    after.5@,
                    entity,
                    components.5,
                    ids,
                    err,
                ) && kept6
                ||| done6 && slot_load_fails::<M, C6, E>(
                    before.6@,
                    after.6@,
                    entity,
                    components.6,
                    ids,
                    err,
                ) && kept7
                ||| done7 && slot_load_fails::<M, C7, E>(
                    before.7@,
                    after.7@,
                    entity,
                    components.7,
                    ids,
                    err,
                ) && kept8
                ||| done8 && slot_load_fails::<M, C8, E>(
                    before.8@,
                    after.8@,
                    entity,
                    components.8,
                    ids,
                    err,
                ) && kept9
                ||| done9 && slot_load_fails::<M, C9, E>(
                    before.9@,
                    after.9@,
                    entity,
                    components.9,
                    ids,
                    err,
                ) && kept10
                ||| done10 && slot_load_fails::<M, C10, E>(
                    before.10@,
                    after.10@,
                    entity,
                    components.10,
                    ids,
                    err,
                ) && kept11
                ||| done11 && slot_load_fails::<M, C11, E>(
                    before.11@,
                    after.11@,
                    entity,
                    components.11,
                    ids,
                    err,
                )
            },
        }
    }

    fn save<F>(
        entity: Entity,
        storages: &(
            Storage<C0>, Storage<C1>, Storage<C2>, Storage<C3>, Storage<C4>, Storage<C5>,
            Storage<C6>, Storage<C7>, Storage<C8>, Storage<C9>, Storage<C10>, Storage<C11>,
        ),
        mut ids: F,
    ) -> (r: Result<
        (
            Option<C0::Data>, Option<C1::Data>, Option<C2::Data>, Option<C3::Data>,
            Option<C4::Data>, Option<C5::Data>, Option<C6::Data>, Option<C7::Data>,
            Option<C8::Data>, Option<C9::Data>, Option<C10::Data>, Option<C11::Data>,
        ),
        E,
    >) where
        F: FnMut(Entity) -> Option<M>,
     {
        let ghost asked = answers(ids);
        let d0 = match save_slot::<M, C0, F>(entity, &storages.0, &mut ids) {
            Ok(slot) => slot,
            Err(e) => {
                return Err(E::from(e));
            },
        };
        assert(slot_passes::<M, C0>(storages.0@, entity, asked));
        let d1 = match save_slot::<M, C1, F>(entity, &storages.1, &mut ids) {
            Ok(slot) => slot,
            Err(e) => {
                return Err(E::from(e));
            },
        };
        assert(slot_passes::<M, C1>(storages.1@, entity, asked));
        let d2 = match save_slot::<M, C2, F>(entity, &storages.2, &mut ids) {
            Ok(slot) => slot,
            Err(e) => {
                return Err(E::from(e));
            },
        };
        assert(slot_passes::<M, C2>(storages.2@, entity, asked));
        let d3 = match save_slot::<M, C3, F>(entity, &storages.3, &mut ids) {
            Ok(slot) => slot,
            Err(e) => {
                return Err(E::from(e));
            },
        };
        assert(slot_passes::<M, C3>(storages.3@, entity, asked));
        let d4 = match save_slot::<M, C4, F>(entity, &storages.4, &mut ids) {
            Ok(slot) => slot,
            Err(e) => {
                return Err(E::from(e));
            },
        };
        assert(slot_passes::<M, C4>(storages.4@, entity, asked));
        let d5 = match save_slot::<M, C5, F>(entity, &storages.5, &mut ids) {
            Ok(slot) => slot,
            Err(e) => {
                return Err(E::from(e));
            },
        };
        assert(slot_passes::<M, C5>(storages.5@, entity, asked));
        let d6 = match save_slot::<M, C6, F>(entity, &storages.6, &mut ids) {
            Ok(slot) => slot,
            Err(e) => {
                return Err(E::from(e));
            },
        };
        assert(slot_passes::<M, C6>(storages.6@, entity, asked));
        let d7 = match save_slot::<M, C7, F>(entity, &storages.7, &mut ids) {
            Ok(slot) => slot,
            Err(e) => {
                return Err(E::from(e));
            },
        };
        assert(slot_passes::<M, C7>(storages.7@, entity, asked));
        let d8 = match save_slot::<M, C8, F>(entity, &storages.8, &mut ids) {
            Ok(slot) => slot,
            Err(e) => {
                return Err(E::from(e));
            },
        };
        assert(slot_passes::<M, C8>(storages.8@, entity, asked));
        let d9 = match save_slot::<M, C9, F>(entity, &storages.9, &mut ids) {
            Ok(slot) => slot,
            Err(e) => {
                return Err(E::from(e));
            },
        };
        assert(slot_passes::<M, C9>(storages.9@, entity, asked));
        let d10 = match save_slot::<M, C10, F>(entity, &storages.10, &mut ids) {
            Ok(slot) => slot,
            Err(e) => {
                return Err(E::from(e));
            },
        };
        assert(slot_passes::<M, C10>(storages.10@, entity, asked));
        let d11 = match save_slot::<M, C11, F>(entity, &storages.11, &mut ids) {
            Ok(slot) => slot,
            Err(e) => {
                return Err(E::from(e));
            },
        };
        Ok((d0, d1, d2, d3, d4, d5, d6, d7, d8, d9, d10, d11))
    }

    fn load<F>(
        entity: Entity,
        components: (
            Option<C0::Data>, Option<C1::Data>, Option<C2::Data>, Option<C3::Data>,
            Option<C4::Data>, Option<C5::Data>, Option<C6::Data>, Option<C7::Data>,
            Option<C8::Data>, Option<C9::Data>, Option<C10::Data>, Option<C11::Data>,
        ),
        storages: &mut (
            Storage<C0>, Storage<C1>, Storage<C2>, Storage<C3>, Storage<C4>, Storage<C5>,
            Storage<C6>, Storage<C7>, Storage<C8>, Storage<C9>, Storage<C10>, Storage<C11>,
        ),
        mut ids: F,
    ) -> (r: Result<(), E>) where
        F: FnMut(M) -> Option<Entity>,
     {
        let (c0, c1, c2, c3, c4, c5, c6, c7, c8, c9, c10, c11) = components;
        match load_slot::<M, C0, F>(entity, c0, &mut storages.0, &mut ids) {
            Ok(_) => {},
            Err(e) => {
                return Err(E::from(e));
            },
        }
        match load_slot::<M, C1, F>(entity, c1, &mut storages.1, &mut ids) {
            Ok(_) => {},
            Err(e) => {
                return Err(E::from(e));
            },
        }
        match load_slot::<M, C2, F>(entity, c2, &mut storages.2, &mut ids) {
            Ok(_) => {},
            Err(e) => {
                return Err(E::from(e));
            },
        }
        match load_slot::<M, C3, F>(entity, c3, &mut storages.3, &mut ids) {
            Ok(_) => {},
            Err(e) => {
                return Err(E::from(e));
            },
        }
        match load_slot::<M, C4, F>(entity, c4, &mut storages.4, &mut ids) {
            Ok(_) => {},
            Err(e) => {
                return Err(E::from(e));
            },
        }
        match load_slot::<M, C5, F>(entity, c5, &mut storages.5, &mut ids) {
            Ok(_) => {},
            Err(e) => {
                return Err(E::from(e));
            },
        }
        match load_slot::<M, C6, F>(entity, c6, &mut storages.6, &mut ids) {
            Ok(_) => {},
            Err(e) => {
                return Err(E::from(e));
            },
        }
        match load_slot::<M, C7, F>(entity, c7, &mut storages.7, &mut ids) {
            Ok(_) => {},
            Err(e) => {
                return Err(E::from(e));
            },
        }
        match load_slot::<M, C8, F>(entity, c8, &mut storages.8, &mut ids) {
            Ok(_) => {},
            Err(e) => {
                return Err(E::from(e));
            },
        }
        match load_slot::<M, C9, F>(entity, c9, &mut storages.9, &mut ids) {
            Ok(_) => {},
            Err(e) => {
                return Err(E::from(e));
            },
        }
        match load_slot::<M, C10, F>(entity, c10, &mut storages.10, &mut ids) {
            Ok(_) => {},
            Err(e) => {
                return Err(E::from(e));
            },
        }
        match load_slot::<M, C11, F>(entity, c11, &mut storages.11, &mut ids) {
            Ok(_) => {},
            Err(e) => {
                return Err(E::from(e));
            },
        }
        Ok(())
    }
}

/// A list of thirteen component types.
impl<
    C0: Component, C1: Component, C2: Component, C3: Component, C4: Component, C5: Component,
    C6: Component, C7: Component, C8: Component, C9: Component, C10: Component, C11: Component,
    C12: Component,
> Storages for (
    C0, C1, C2, C3, C4, C5, C6, C7, C8, C9, C10, C11, C12,
) {
    type ReadStorages = (
        Storage<C0>, Storage<C1>, Storage<C2>, Storage<C3>, Storage<C4>, Storage<C5>, Storage<C6>,
        Storage<C7>, Storage<C8>, Storage<C9>, Storage<C10>, Storage<C11>, Storage<C12>,
    );

    type WriteStorages = (
        Storage<C0>, Storage<C1>, Storage<C2>, Storage<C3>, Storage<C4>, Storage<C5>, Storage<C6>,
        Storage<C7>, Storage<C8>, Storage<C9>, Storage<C10>, Storage<C11>, Storage<C12>,
    );
}

impl<
    M, E, C0, C1, C2, C3, C4, C5, C6, C7, C8, C9, C10, C11, C12,
> Components<M, E> for (
    C0, C1, C2, C3, C4, C5, C6, C7, C8, C9, C10, C11, C12,
) where
    C0: SaveLoadComponent<M>,
    E: From<C0::Error>,
    C1: SaveLoadComponent<M>,
    E: From<C1::Error>,
    C2: SaveLoadComponent<M>,
    E: From<C2::Error>,
    C3: SaveLoadComponent<M>,
    E: From<C3::Error>,
    C4: SaveLoadComponent<M>,
    E: From<C4::Error>,
    C5: SaveLoadComponent<M>,
    E: From<C5::Error>,
    C6: SaveLoadComponent<M>,
    E: From<C6::Error>,
    C7: SaveLoadComponent<M>,
    E: From<C7::Error>,
    C8: SaveLoadComponent<M>,
    E: From<C8::Error>,
    C9: SaveLoadComponent<M>,
    E: From<C9::Error>,
    C10: SaveLoadComponent<M>,
    E: From<C10::Error>,
    C11: SaveLoadComponent<M>,
    E: From<C11::Error>,
    C12: SaveLoadComponent<M>,
    E: From<C12::Error>,
 {
    type Data = (
        Option<C0::Data>, Option<C1::Data>, Option<C2::Data>, Option<C3::Data>, Option<C4::Data>,
        Option<C5::Data>, Option<C6::Data>, Option<C7::Data>, Option<C8::Data>, Option<C9::Data>,
        Option<C10::Data>, Option<C11::Data>, Option<C12::Data>,
    );

    open spec fn save_yields(
        entity: Entity,
        storages: &(
            Storage<C0>, Storage<C1>, Storage<C2>, Storage<C3>, Storage<C4>, Storage<C5>,
            Storage<C6>, Storage<C7>, Storage<C8>, Storage<C9>, Storage<C10>, Storage<C11>,
            Storage<C12>,
        ),
        ids: spec_fn(Entity, Option<M>) -> bool,
        r: Result<(
            Option<C0::Data>, Option<C1::Data>, Option<C2::Data>, Option<C3::Data>,
            Option<C4::Data>, Option<C5::Data>, Option<C6::Data>, Option<C7::Data>,
            Option<C8::Data>, Option<C9::Data>, Option<C10::Data>, Option<C11::Data>,
            Option<C12::Data>,
        ), E>,
    ) -> bool {
        match r {
            Ok(data) => {
                &&& slot_saved::<M, C0>(storages.0@, entity, ids, Ok(data.0))
                &&& slot_saved::<M, C1>(storages.1@, entity, ids, Ok(data.1))
                &&& slot_saved::<M, C2>(storages.2@, entity, ids, Ok(data.2))
                &&& slot_saved::<M, C3>(storages.3@, entity, ids, Ok(data.3))
                &&& slot_saved::<M, C4>(storages.4@, entity, ids, Ok(data.4))
                &&& slot_saved::<M, C5>(storages.5@, entity, ids, Ok(data.5))
                &&& slot_saved::<M, C6>(storages.6@, entity, ids, Ok(data.6))
                &&& slot_saved::<M, C7>(storages.7@, entity, ids, Ok(data.7))
                &&& slot_saved::<M, C8>(storages.8@, entity, ids, Ok(data.8))
                &&& slot_saved::<M, C9>(storages.9@, entity, ids, Ok(data.9))
                &&& slot_saved::<M, C10>(storages.10@, entity, ids, Ok(data.10))
                &&& slot_saved::<M, C11>(storages.11@, entity, ids, Ok(data.11))
                &&& slot_saved::<M, C12>(storages.12@, entity, ids, Ok(data.12))
            },
            Err(err) => {
                let reached1 = slot_passes::<M, C0>(storages.0@, entity, ids);
                let reached2 = reached1 && slot_passes::<M, C1>(storages.1@, entity, ids);
                let reached3 = reached2 && slot_passes::<M, C2>(storages.2@, entity, ids);
                let reached4 = reached3 && slot_passes::<M, C3>(storages.3@, entity, ids);
                let reached5 = reached4 && slot_passes::<M, C4>(storages.4@, entity, ids);
                let reached6 = reached5 && slot_passes::<M, C5>(storages.5@, entity, ids);
                let reached7 = reached6 && slot_passes::<M, C6>(storages.6@, entity, ids);
                let reached8 = reached7 && slot_passes::<M, C7>(storages.7@, entity, ids);
                let reached9 = reached8 && slot_passes::<M, C8>(storages.8@, entity, ids);
                let reached10 = reached9 && slot_passes::<M, C9>(storages.9@, entity, ids);
                let reached11 = reached10 && slot_passes::<M, C10>(storages.10@, entity, ids);
                let reached12 = reached11 && slot_passes::<M, C11>(storages.11@, entity, ids);
                ||| slot_save_fails::<M, C0, E>(storages.0@, entity, ids, err)
                ||| reached1 && slot_save_fails::<M, C1, E>(storages.1@, entity, ids, err)
                ||| reached2 && slot_save_fails::<M, C2, E>(storages.2@, entity, ids, err)
                ||| reached3 && slot_save_fails::<M, C3, E>(storages.3@, entity, ids, err)
                ||| reached4 && slot_save_fails::<M, C4, E>(storages.4@, entity, ids, err)
                ||| reached5 && slot_save_fails::<M, C5, E>(storages.5@, entity, ids, err)
                ||| reached6 && slot_save_fails::<M, C6, E>(storages.6@, entity, ids, err)
                ||| reached7 && slot_save_fails::<M, C7, E>(storages.7@, entity, ids, err)
                ||| reached8 && slot_save_fails::<M, C8, E>(storages.8@, entity, ids, err)
                ||| reached9 && slot_save_fails::<M, C9, E>(storages.9@, entity, ids, err)
                ||| reached10 && slot_save_fails::<M, C10, E>(storages.10@, entity, ids, err)
                ||| reached11 && slot_save_fails::<M, C11, E>(storages.11@, entity, ids, err)
                ||| reached12 && slot_save_fails::<M, C12, E>(storages.12@, entity, ids, err)
            },
        }
    }

    open spec fn load_yields(
        entity: Entity,
        components: (
            Option<C0::Data>, Option<C1::Data>, Option<C2::Data>, Option<C3::Data>,
            Option<C4::Data>, Option<C5::Data>, Option<C6::Data>, Option<C7::Data>,
            Option<C8::Data>, Option<C9::Data>, Option<C10::Data>, Option<C11::Data>,
            Option<C12::Data>,
        ),
        before: &(
            Storage<C0>, Storage<C1>, Storage<C2>, Storage<C3>, Storage<C4>, Storage<C5>,
            Storage<C6>, Storage<C7>, Storage<C8>, Storage<C9>, Storage<C10>, Storage<C11>,
            Storage<C12>,
        ),
        after: &(
            Storage<C0>, Storage<C1>, Storage<C2>, Storage<C3>, Storage<C4>, Storage<C5>,
            Storage<C6>, Storage<C7>, Storage<C8>, Storage<C9>, Storage<C10>, Storage<C11>,
            Storage<C12>,
        ),
        ids: spec_fn(M, Option<Entity>) -> bool,
        r: Result<(), E>,
    ) -> bool {
        match r {
            Ok(_) => {
                &&& slot_loaded::<M, C0>(before.0@, after.0@, entity, components.0, ids, Ok(()))
                &&& slot_loaded::<M, C1>(before.1@, after.1@, entity, components.1, ids, Ok(()))
                &&& slot_loaded::<M, C2>(before.2@, after.2@, entity, components.2, ids, Ok(()))
                &&& slot_loaded::<M, C3>(before.3@, after.3@, entity, components.3, ids, Ok(()))
                &&& slot_loaded::<M, C4>(before.4@, after.4@, entity, components.4, ids, Ok(()))
                &&& slot_loaded::<M, C5>(before.5@, after.5@, entity, components.5, ids, Ok(()))
                &&& slot_loaded::<M, C6>(before.6@, after.6@, entity, components.6, ids, Ok(()))
                &&& slot_loaded::<M, C7>(before.7@, after.7@, entity, components.7, ids, Ok(()))
                &&& slot_loaded::<M, C8>(before.8@, after.8@, entity, components.8, ids, Ok(()))
                &&& slot_loaded::<M, C9>(before.9@, after.9@, entity, components.9, ids, Ok(()))
                &&& slot_loaded::<M, C10>(before.10@, after.10@, entity, components.10, ids, Ok(()))
                &&& slot_loaded::<M, C11>(before.11@, after.11@, entity, components.11, ids, Ok(()))
                &&& slot_loaded::<M, C12>(before.12@, after.12@, entity, components.12, ids, Ok(()))
            },
            Err(err) => {
                let done1 = slot_loaded::<M, C0>(
                    before.0@,
                    after.0@,
                    entity,
                    components.0,
                    ids,
                    Ok(()),
                );
                let done2 = done1 && slot_loaded::<M, C1>(
                    before.1@,
                    after.1@,
                    entity,
                    components.1,
                    ids,
                    Ok(()),
                );
                let done3 = done2 && slot_loaded::<M, C2>(
                    before.2@,
                    after.2@,
                    entity,
                    components.2,
                    ids,
                    Ok(()),
                );
                let done4 = done3 && slot_loaded::<M, C3>(
                    before.3@,
                    after.3@,
                    entity,
                    components.3,
                    ids,
                    Ok(()),
                );
                let done5 = done4 && slot_loaded::<M, C4>(
                    before.4@,
                    after.4@,
                    entity,
                    components.4,
                    ids,
                    Ok(()),
                );
                let done6 = done5 && slot_loaded::<M, C5>(
                    before.5@,
                    after.5@,
                    entity,
                    components.5,
                    ids,
                    Ok(()),
                );
                let done7 = done6 && slot_loaded::<M, C6>(
                    before.6@,
                    after.6@,
                    entity,
                    components.6,
                    ids,
                    Ok(()),
                );
                let done8 = done7 && slot_loaded::<M, C7>(
                    before.7@,
                    after.7@,
                    entity,
                    components.7,
                    ids,
                    Ok(()),
                );
                let done9 = done8 && slot_loaded::<M, C8>(
                    before.8@,
                    after.8@,
                    entity,
                    components.8,
                    ids,
                    Ok(()),
                );
                let done10 = done9 && slot_loaded::<M, C9>(
                    before.9@,
                    after.9@,
                    entity,
                    components.9,
                    ids,
                    Ok(()),
                );
                let done11 = done10 && slot_loaded::<M, C10>(
                    before.10@,
                    after.10@,
                    entity,
                    components.10,
                    ids,
                    Ok(()),
                );
                let done12 = done11 && slot_loaded::<M, C11>(
                    before.11@,
                    after.11@,
                    entity,
                    components.11,
                    ids,
                    Ok(()),
                );
                let kept12 = after.12@ == before.12@;
                let kept11 = kept12 && after.11@ == before.11@;
                let kept10 = kept11 && after.10@ == before.10@;
                let kept9 = kept10 && after.9@ == before.9@;
                let kept8 = kept9 && after.8@ == before.8@;
                let kept7 = kept8 && after.7@ == before.7@;
                let kept6 = kept7 && after.6@ == before.6@;
                let kept5 = kept6 && after.5@ == before.5@;
                let kept4 = kept5 && after.4@ == before.4@;
                let kept3 = kept4 && after.3@ == before.3@;
                let kept2 = kept3 && after.2@ == before.2@;
                let kept1 = kept2 && after.1@ == before.1@;
                ||| slot_load_fails::<M, C0, E>(
                    before.0@,
                    after.0@,
                    entity,
                    components.0,
                    ids,
                    err,
                ) && kept1
                ||| done1 && slot_load_fails::<M, C1, E>(
                    before.1@,
                    after.1@,
                    entity,
                    components.1,
                    ids,
                    err,
                ) && kept2
                ||| done2 && slot_load_fails::<M, C2, E>(
                    before.2@,
                    after.2@,
                    entity,
                    components.2,
                    ids,
                    err,
                ) && kept3
                ||| done3 && slot_load_fails::<M, C3, E>(
                    before.3@,
                    after.3@,
                    entity,
                    components.3,
                    ids,
                    err,
                ) && kept4
                ||| done4 && slot_load_fails::<M, C4, E>(
                    before.4@,
                    after.4@,
                    entity,
                    components.4,
                    ids,
                    err,
                ) && kept5
                ||| done5 && slot_load_fails::<M, C5, E>(
                    before.5@,
                    after.5@,
                    entity,
                    components.5,
                    ids,
                    err,
                ) && kept6
                ||| done6 && slot_load_fails::<M, C6, E>(
                    before.6@,
                    after.6@,
                    entity,
                    components.6,
                    ids,
                    err,
                ) && kept7
                ||| done7 && slot_load_fails::<M, C7, E>(
                    before.7@,
                    after.7@,
                    entity,
                    components.7,
                    ids,
                    err,
                ) && kept8
                ||| done8 && slot_load_fails::<M, C8, E>(
                    before.8@,
                    after.8@,
                    entity,
                    components.8,
                    ids,
                    err,
                ) && kept9
                ||| done9 && slot_load_fails::<M, C9, E>(
                    before.9@,
                    after.9@,
                    entity,
                    components.9,
                    ids,
                    err,
                ) && kept10
                ||| done10 && slot_load_fails::<M, C10, E>(
                    before.10@,
                    after.10@,
                    entity,
                    components.10,
                    ids,
                    err,
                ) && kept11
                ||| done11 && slot_load_fails::<M, C11, E>(
                    before.11@,
                    after.11@,
                    entity,
                    components.11,
                    ids,
                    err,
                ) && kept12
                ||| done12 && slot_load_fails::<M, C12, E>(
                    before.12@,
                    after.12@,
                    entity,
                    components.12,
                    ids,
                    err,
                )
            },
        }
    }

    fn save<F>(
        entity: Entity,
        storages: &(
            Storage<C0>, Storage<C1>, Storage<C2>, Storage<C3>, Storage<C4>, Storage<C5>,
            Storage<C6>, Storage<C7>, Storage<C8>, Storage<C9>, Storage<C10>, Storage<C11>,
            Storage<C12>,
        ),
        mut ids: F,
    ) -> (r: Result<
        (
            Option<C0::Data>, Option<C1::Data>, Option<C2::Data>, Option<C3::Data>,
            Option<C4::Data>, Option<C5::Data>, Option<C6::Data>, Option<C7::Data>,
            Option<C8::Data>, Option<C9::Data>, Option<C10::Data>, Option<C11::Data>,
            Option<C12::Data>,
        ),
        E,
    >) where
        F: FnMut(Entity) -> Option<M>,
     {
        let ghost asked = answers(ids);
        let d0 = match save_slot::<M, C0, F>(entity, &storages.0, &mut ids) {
            Ok(slot) => slot,
            Err(e) => {
                return Err(E::from(e));
            },
        };
        assert(slot_passes::<M, C0>(storages.0@, entity, asked));
        let d1 = match save_slot::<M, C1, F>(entity, &storages.1, &mut ids) {
            Ok(slot) => slot,
            Err(e) => {
                return Err(E::from(e));
            },
        };
        assert(slot_passes::<M, C1>(storages.1@, entity, asked));
        let d2 = match save_slot::<M, C2, F>(entity, &storages.2, &mut ids) {
            Ok(slot) => slot,
            Err(e) => {
                return Err(E::from(e));
            },
        };
        assert(slot_passes::<M, C2>(storages.2@, entity, asked));
        let d3 = match save_slot::<M, C3, F>(entity, &storages.3, &mut ids) {
            Ok(slot) => slot,
            Err(e) => {
                return Err(E::from(e));
            },
        };
        assert(slot_passes::<M, C3>(storages.3@, entity, asked));
        let d4 = match save_slot::<M, C4, F>(entity, &storages.4, &mut ids) {
            Ok(slot) => slot,
            Err(e) => {
                return Err(E::from(e));
            },
        };
        assert(slot_passes::<M, C4>(storages.4@, entity, asked));
        let d5 = match save_slot::<M, C5, F>(entity, &storages.5, &mut ids) {
            Ok(slot) => slot,
            Err(e) => {
                return Err(E::from(e));
            },
        };
        assert(slot_passes::<M, C5>(storages.5@, entity, asked));
        let d6 = match save_slot::<M, C6, F>(entity, &storages.6, &mut ids) {
            Ok(slot) => slot,
            Err(e) => {
                return Err(E::from(e));
            },
        };
        assert(slot_passes::<M, C6>(storages.6@, entity, asked));
        let d7 = match save_slot::<M, C7, F>(entity, &storages.7, &mut ids) {
            Ok(slot) => slot,
            Err(e) => {
                return Err(E::from(e));
            },
        };
        assert(slot_passes::<M, C7>(storages.7@, entity, asked));
        let d8 = match save_slot::<M, C8, F>(entity, &storages.8, &mut ids) {
            Ok(slot) => slot,
            Err(e) => {
                return Err(E::from(e));
            },
        };
        assert(slot_passes::<M, C8>(storages.8@, entity, asked));
        let d9 = match save_slot::<M, C9, F>(entity, &storages.9, &mut ids) {
            Ok(slot) => slot,
            Err(e) => {
                return Err(E::from(e));
            },
        };
        assert(slot_passes::<M, C9>(storages.9@, entity, asked));
        let d10 = match save_slot::<M, C10, F>(entity, &storages.10, &mut ids) {
            Ok(slot) => slot,
            Err(e) => {
                return Err(E::from(e));
            },
        };
        assert(slot_passes::<M, C10>(storages.10@, entity, asked));
        let d11 = match save_slot::<M, C11, F>(entity, &storages.11, &mut ids) {
            Ok(slot) => slot,
            Err(e) => {
                return Err(E::from(e));
            },
        };
        assert(slot_passes::<M, C11>(storages.11@, entity, asked));
        let d12 = match save_slot::<M, C12, F>(entity, &storages.12, &mut ids) {
            Ok(slot) => slot,
            Err(e) => {
                return Err(E::from(e));
            },
        };
        Ok((d0, d1, d2, d3, d4, d5, d6, d7, d8, d9, d10, d11, d12))
    }

    fn load<F>(
        entity: Entity,
        components: (
            Option<C0::Data>, Option<C1::Data>, Option<C2::Data>, Option<C3::Data>,
            Option<C4::Data>, Option<C5::Data>, Option<C6::Data>, Option<C7::Data>,
            Option<C8::Data>, Option<C9::Data>, Option<C10::Data>, Option<C11::Data>,
            Option<C12::Data>,
        ),
        storages: &mut (
            Storage<C0>, Storage<C1>, Storage<C2>, Storage<C3>, Storage<C4>, Storage<C5>,
            Storage<C6>, Storage<C7>, Storage<C8>, Storage<C9>, Storage<C10>, Storage<C11>,
            Storage<C12>,
        ),
        mut ids: F,
    ) -> (r: Result<(), E>) where
        F: FnMut(M) -> Option<Entity>,
     {
        let (c0, c1, c2, c3, c4, c5, c6, c7, c8, c9, c10, c11, c12) = components;
        match load_slot::<M, C0, F>(entity, c0, &mut storages.0, &mut ids) {
            Ok(_) => {},
            Err(e) => {
                return Err(E::from(e));
            },
        }
        match load_slot::<M, C1, F>(entity, c1, &mut storages.1, &mut ids) {
            Ok(_) => {},
            Err(e) => {
                return Err(E::from(e));
            },
        }
        match load_slot::<M, C2, F>(entity, c2, &mut storages.2, &mut ids) {
            Ok(_) => {},
            Err(e) => {
                return Err(E::from(e));
            },
        }
        match load_slot::<M, C3, F>(entity, c3, &mut storages.3, &mut ids) {
            Ok(_) => {},
            Err(e) => {
                return Err(E::from(e));
            },
        }
        match load_slot::<M, C4, F>(entity, c4, &mut storages.4, &mut ids) {
            Ok(_) => {},
            Err(e) => {
                return Err(E::from(e));
            },
        }
        match load_slot::<M, C5, F>(entity, c5, &mut storages.5, &mut ids) {
            Ok(_) => {},
            Err(e) => {
                return Err(E::from(e));
            },
        }
        match load_slot::<M, C6, F>(entity, c6, &mut storages.6, &mut ids) {
            Ok(_) => {},
            Err(e) => {
                return Err(E::from(e));
            },
        }
        match load_slot::<M, C7, F>(entity, c7, &mut storages.7, &mut ids) {
            Ok(_) => {},
            Err(e) => {
                return Err(E::from(e));
            },
        }
        match load_slot::<M, C8, F>(entity, c8, &mut storages.8, &mut ids) {
            Ok(_) => {},
            Err(e) => {
                return Err(E::from(e));
            },
        }
        match load_slot::<M, C9, F>(entity, c9, &mut storages.9, &mut ids) {
            Ok(_) => {},
            Err(e) => {
                return Err(E::from(e));
            },
        }
        match load_slot::<M, C10, F>(entity, c10, &mut storages.10, &mut ids) {
            Ok(_) => {},
            Err(e) => {
                return Err(E::from(e));
            },
        }
        match load_slot::<M, C11, F>(entity, c11, &mut storages.11, &mut ids) {
            Ok(_) => {},
            Err(e) => {
                return Err(E::from(e));
            },
        }
        match load_slot::<M, C12, F>(entity, c12, &mut storages.12, &mut ids) {
            Ok(_) => {},
            Err(e) => {
                return Err(E::from(e));
            },
        }
        Ok(())
    }
}

} // verus!
