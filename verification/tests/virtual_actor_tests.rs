use cluster_node::counter::{count_message, handle_ping, handle_remote_request, Ping, RemoteRequest};
use cluster_node::housekeeping::{
    HousekeepingActor, RefreshUsage, RevisitUsage, UnregisterActor, IDLE_LIFETIME, REVISIT_INTERVAL,
};
use cluster_node::persistence::{
    state_file_path_of, InmemoryStatePersistence, StatePersistence, StatePersistenceError,
};
use cluster_node::persistence::StatePersistenceError as PersistError;
use cluster_node::virtual_actor::{
    handler_path_of, live_local_actor, VirtualActorFactoryError, VirtualActorSendError,
};
use cluster_node::virtual_registry::{
    stop_all_outcome, stop_outcome, GetActor, GetActorPlan, ParkVirtualActor, SetFactory, StopAllError,
    VirtualActorRegistryActor, VirtualActorRegistryError,
};

#[test]
fn counting_actor_replies() {
    assert_eq!(count_message("hello", 0), Ok((1, "hello 1".to_string())));
    assert_eq!(count_message("hello", 254), Ok((255, "hello 255".to_string())));
    assert_eq!(count_message("Error", 7), Err("Error".to_string()));
    let (c, res) = handle_ping(&Ping { message: "hi".to_string() }, 9).expect("reply");
    assert_eq!((c, res.p.as_str()), (10, "hi 10"));
    let r = handle_remote_request(&RemoteRequest { message: "Error".to_string() }, 3);
    assert_eq!(r, Err("Error".to_string()));
}

#[test]
fn inmemory_load_after_save() {
    let mut p = InmemoryStatePersistence::new();
    assert!(matches!(p.load_state("a"), Ok(None)));
    assert!(p.save_state("a", vec![1, 2]).is_ok());
    assert!(p.save_state("b", vec![3]).is_ok());
    assert!(p.save_state("a", vec![4]).is_ok());
    assert_eq!(p.load_state("a").ok().flatten(), Some(vec![4]));
    assert_eq!(p.load_state("b").ok().flatten(), Some(vec![3]));
}

#[test]
fn state_file_paths() {
    assert_eq!(state_file_path_of("TestRemoteActor", "x"), "./data/persistence/TestRemoteActor_x.json");
    assert_eq!(state_file_path_of("/abs", "x"), "/abs_x.json");
    let e = StatePersistenceError::LoadError("gone".to_string());
    assert!(matches!(e, StatePersistenceError::LoadError(_)));
}

#[test]
fn handler_paths() {
    assert_eq!(handler_path_of("TestRemoteActor", "Ping"), "/actor/TestRemoteActor/{id}/Ping");
}

#[test]
fn sending_needs_a_live_actor() {
    assert_eq!(live_local_actor(Some(3)).ok(), Some(3));
    assert!(matches!(live_local_actor::<u8>(None), Err(VirtualActorSendError::MissingLocalActor)));
}

#[test]
fn housekeeping_unregisters_idle_actors() {
    let mut h = HousekeepingActor::new();
    h.refresh_usage(RefreshUsage::new("a"), 100);
    h.refresh_usage(RefreshUsage::new("b"), 150);
    h.refresh_usage(RefreshUsage::new("a"), 160);
    let idle = h.revisit_usage(RevisitUsage { lifetime_threshold: 50 }, 200);
    let ids: Vec<String> = idle.iter().map(|u| u.id.clone()).collect();
    assert_eq!(ids, vec!["b".to_string()]);
    let mut all: Vec<String> = h
        .revisit_usage(RevisitUsage { lifetime_threshold: 40 }, 200)
        .into_iter()
        .map(|u| u.id)
        .collect();
    all.sort();
    assert_eq!(all, vec!["a".to_string(), "b".to_string()]);
    let park = h.unregister_actor(UnregisterActor::new("b"));
    assert_eq!(park.id, "b");
    assert!(h.revisit_usage(RevisitUsage { lifetime_threshold: 40 }, 200).iter().all(|u| u.id != "b"));
    // a fresh use is never idle
    assert!(h.revisit_usage(RevisitUsage { lifetime_threshold: 1 }, 160).is_empty());
    // a clock that reads earlier counts as no time
    assert!(h.revisit_usage(RevisitUsage { lifetime_threshold: 1 }, 0).is_empty());
    assert_eq!(h.revisit_usage(RevisitUsage { lifetime_threshold: 0 }, 0).len(), 1);
}

#[test]
fn registry_creates_parks_and_stops_actors() {
    let mut reg: VirtualActorRegistryActor<u32, &str> = VirtualActorRegistryActor::new();
    let get = GetActor::new("a".to_string());
    assert!(matches!(reg.get_or_create_actor(&get), Err(VirtualActorRegistryError::FactoryIsNotSet)));
    reg.set_factory(SetFactory::new("factory"));
    assert!(matches!(reg.get_or_create_actor(&get), Ok(GetActorPlan::Create(&"factory"))));
    reg.actor_created("a".to_string(), 7);
    assert!(matches!(reg.get_or_create_actor(&get), Ok(GetActorPlan::Running(&7))));
    assert_eq!(reg.actor_to_park(&ParkVirtualActor::new("a")), Some(&7));

    let refresh = reg.actor_parked(ParkVirtualActor::new("a"), false).expect("refresh");
    assert_eq!(refresh.id, "a");
    assert_eq!(reg.actor_count(), 1);
    assert!(reg.actor_parked(ParkVirtualActor::new("a"), true).is_none());
    assert_eq!(reg.actor_count(), 0);
    assert!(reg.actor_to_park(&ParkVirtualActor::new("a")).is_none());
}

#[test]
fn stop_all_outcomes() {
    assert!(matches!(stop_all_outcome(vec![Ok(()), Ok(())]), Ok(2)));
    assert!(matches!(stop_all_outcome(vec![]), Ok(0)));
    match stop_all_outcome(vec![
        Ok(()),
        Err(StopAllError::JoinError("j".to_string())),
        Err(StopAllError::MailboxError("m".to_string())),
    ]) {
        Err(VirtualActorRegistryError::StopAllErrors(errs)) => {
            assert_eq!(errs.len(), 2);
            assert!(matches!(&errs[0], StopAllError::JoinError(m) if m == "j"));
            assert!(matches!(&errs[1], StopAllError::MailboxError(m) if m == "m"));
        }
        _ => panic!("expected errors"),
    }
}

#[test]
fn creation_outcomes() {
    let mut reg: VirtualActorRegistryActor<u32, &str> = VirtualActorRegistryActor::new();
    reg.set_factory(SetFactory::new("factory"));
    assert!(reg.creation_finished(Ok(("a".to_string(), 4))).is_ok());
    assert_eq!(reg.actor_count(), 1);
    let failed = reg.creation_finished(Err(VirtualActorFactoryError::StatePersistenceError(
        PersistError::LoadError("gone".to_string()),
    )));
    match failed {
        Err(VirtualActorRegistryError::FactoryError(VirtualActorFactoryError::StatePersistenceError(
            PersistError::LoadError(m),
        ))) => assert_eq!(m, "gone"),
        _ => panic!("expected the factory error"),
    }
    assert_eq!(reg.actor_count(), 1);
    assert!(matches!(
        reg.get_or_create_actor(&GetActor::new("a".to_string())),
        Ok(GetActorPlan::Running(&4))
    ));
    assert!(matches!(
        reg.get_or_create_actor(&GetActor::new("b".to_string())),
        Ok(GetActorPlan::Create(&"factory"))
    ));
}

#[test]
fn every_running_actor_is_stopped_once() {
    let mut reg: VirtualActorRegistryActor<u32, &str> = VirtualActorRegistryActor::new();
    assert!(reg.actors_to_stop().is_empty());
    reg.actor_created("a".to_string(), 1);
    reg.actor_created("b".to_string(), 2);
    reg.actor_created("a".to_string(), 3);
    let mut targets: Vec<(String, u32)> =
        reg.actors_to_stop().into_iter().map(|(id, a)| (id.clone(), *a)).collect();
    targets.sort();
    assert_eq!(targets, vec![("a".to_string(), 3), ("b".to_string(), 2)]);
}

#[test]
fn only_join_failures_fail_a_stop() {
    assert!(stop_outcome(Ok(Ok(Ok(())))).is_ok());
    assert!(stop_outcome(Ok(Err("mailbox closed".to_string()))).is_ok());
    assert!(stop_outcome(Ok(Ok(Err(cluster_node::virtual_actor::StopRequestError::StateSaveError(
        PersistError::SaveError("disk".to_string()),
    )))))
    .is_ok());
    assert!(matches!(stop_outcome(Err("panicked".to_string())), Err(StopAllError::JoinError(m)) if m == "panicked"));
    let outcomes = vec![stop_outcome(Ok(Ok(Ok(())))), stop_outcome(Err("j".to_string()))];
    assert!(matches!(stop_all_outcome(outcomes), Err(VirtualActorRegistryError::StopAllErrors(e)) if e.len() == 1));
}

#[test]
fn housekeeping_schedule() {
    assert_eq!(REVISIT_INTERVAL, 1_000_000_000);
    assert_eq!(IDLE_LIFETIME, 20_000_000_000);
    assert_eq!(RevisitUsage::scheduled().lifetime_threshold, 20_000_000_000);
    let mut h = HousekeepingActor::new();
    h.refresh_usage(RefreshUsage::new("a"), 0);
    assert!(h.revisit_usage(RevisitUsage::scheduled(), 19_999_999_999).is_empty());
    assert_eq!(h.revisit_usage(RevisitUsage::scheduled(), 20_000_000_000).len(), 1);
}
