use git_spawn::conflicts::ConflictKind;
use git_spawn::parse::status::StatusKind::{Added, Deleted, Modified, Unmerged, Unmodified};

#[test]
fn classifies_every_unmerged_pair() {
    assert_eq!(
        ConflictKind::from_pair(Unmerged, Unmerged),
        Some(ConflictKind::BothModified)
    );
    assert_eq!(
        ConflictKind::from_pair(Added, Added),
        Some(ConflictKind::BothAdded)
    );
    assert_eq!(
        ConflictKind::from_pair(Deleted, Deleted),
        Some(ConflictKind::BothDeleted)
    );
    assert_eq!(
        ConflictKind::from_pair(Added, Unmerged),
        Some(ConflictKind::AddedByUs)
    );
    assert_eq!(
        ConflictKind::from_pair(Unmerged, Added),
        Some(ConflictKind::AddedByThem)
    );
    assert_eq!(
        ConflictKind::from_pair(Deleted, Unmerged),
        Some(ConflictKind::DeletedByUs)
    );
    assert_eq!(
        ConflictKind::from_pair(Unmerged, Deleted),
        Some(ConflictKind::DeletedByThem)
    );
}

#[test]
fn ignores_non_conflict_pairs() {
    // A staged addition, a worktree modification, and a clean entry are
    // not conflicts.
    assert_eq!(ConflictKind::from_pair(Added, Unmodified), None);
    assert_eq!(ConflictKind::from_pair(Unmodified, Modified), None);
    assert_eq!(ConflictKind::from_pair(Modified, Modified), None);
}
