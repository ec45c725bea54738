//! The namespace manager's decisions and the multicast group mask.

use rtnetlink::ns::{ChildWaitOutcome, NETNS_DIR_MODE};
use rtnetlink::{Error, MulticastGroup, NetworkNamespace, NETNS_PATH};

#[test]
fn netns_path_appends_the_name_to_the_directory() {
    assert_eq!(NETNS_PATH, "/run/netns/");
    let path = NetworkNamespace::netns_path("test42");
    assert_eq!(path, "/run/netns/test42");
}

#[test]
fn the_child_reports_success_only_through_exit_code_zero() {
    assert_eq!(NetworkNamespace::child_exit_code(true), 0);
    assert_eq!(NetworkNamespace::child_exit_code(false), 1);
}

#[test]
fn the_parent_trusts_only_a_clean_exit() {
    assert!(NetworkNamespace::parent_outcome(ChildWaitOutcome::Exited(0)).is_ok());
    assert!(matches!(
        NetworkNamespace::parent_outcome(ChildWaitOutcome::Exited(1)),
        Err(Error::NamespaceError(_))
    ));
    assert!(matches!(
        NetworkNamespace::parent_outcome(ChildWaitOutcome::Signaled(9, false)),
        Err(Error::NamespaceError(_))
    ));
    assert!(matches!(
        NetworkNamespace::parent_outcome(ChildWaitOutcome::Unknown),
        Err(Error::NamespaceError(_))
    ));
}

#[test]
fn deleting_an_unmounted_namespace_is_a_namespace_error() {
    // Deleting a namespace that was added succeeds: both syscalls
    // report success. Deleting a name never added fails at the
    // unmount, as the round-trip property demands.
    assert!(NetworkNamespace::del_outcome(true, true).is_ok());
    assert!(matches!(
        NetworkNamespace::del_outcome(false, false),
        Err(Error::NamespaceError(_))
    ));
    assert!(matches!(
        NetworkNamespace::del_outcome(true, false),
        Err(Error::NamespaceError(_))
    ));
}

#[test]
fn namespace_directory_mode_is_rwxr_xr_x() {
    assert_eq!(NETNS_DIR_MODE, 0o755);
}

#[test]
fn group_numbers_match_the_kernel_abi() {
    assert_eq!(MulticastGroup::Link.group_id(), 1);
    assert_eq!(MulticastGroup::Ipv4Ifaddr.group_id(), 5);
    assert_eq!(MulticastGroup::Ipv4Route.group_id(), 7);
    assert_eq!(MulticastGroup::MplsRoute.group_id(), 27);
    assert_eq!(MulticastGroup::Nsid.group_id(), 28);
    assert_eq!(MulticastGroup::MplsNetconf.group_id(), 29);
    assert_eq!(MulticastGroup::Ipv6Acaddr.group_id(), 39);
}

#[test]
fn groups_above_the_mask_need_the_membership_call() {
    assert!(!MulticastGroup::Ipv6MrouteR.need_via_add_membership());
    assert!(MulticastGroup::Nexthop.need_via_add_membership());
    assert!(MulticastGroup::Ipv6Acaddr.need_via_add_membership());
}

#[test]
fn the_bind_mask_collects_only_small_group_numbers() {
    let groups = vec![
        MulticastGroup::Link,
        MulticastGroup::Ipv4Route,
        MulticastGroup::Nexthop,
    ];
    // Bit 0 for group 1 and bit 6 for group 7; group 32 does not fit
    // the mask.
    assert_eq!(rtnetlink::multicast::membership_mask(&groups), 0x41);

    let none: Vec<MulticastGroup> = Vec::new();
    assert_eq!(rtnetlink::multicast::membership_mask(&none), 0);
}
