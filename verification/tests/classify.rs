use deploy::Branch;
use deploy::ClassifyError;
use deploy::branch_for_ref;
use deploy::get_branch;

#[test]
fn master_ref_selects_primary_target() {
    assert_eq!(
        get_branch(b"{\"ref\": \"refs/heads/master\"}"),
        Ok(Branch::Master)
    );
}

#[test]
fn dev_ref_selects_secondary_target() {
    assert_eq!(get_branch(b"{\"ref\": \"refs/heads/dev\"}"), Ok(Branch::Dev));
}

#[test]
fn unmapped_branch_is_rejected() {
    assert_eq!(
        get_branch(b"{\"ref\": \"refs/heads/feature-x\"}"),
        Err(ClassifyError::UnknownBranch)
    );
}

#[test]
fn empty_document_misses_the_ref() {
    assert_eq!(get_branch(b"{}"), Err(ClassifyError::MissingRef));
}

#[test]
fn non_string_ref_misses_the_ref() {
    assert_eq!(get_branch(b"{\"ref\": 5}"), Err(ClassifyError::MissingRef));
    assert_eq!(
        get_branch(b"{\"ref\": null}"),
        Err(ClassifyError::MissingRef)
    );
}

#[test]
fn unparseable_body_is_invalid_payload() {
    assert_eq!(get_branch(b"not json"), Err(ClassifyError::InvalidPayload));
    assert_eq!(get_branch(b""), Err(ClassifyError::InvalidPayload));
    assert_eq!(get_branch(&[0xff, 0xfe]), Err(ClassifyError::InvalidPayload));
}

#[test]
fn empty_ref_is_invalid() {
    assert_eq!(get_branch(b"{\"ref\": \"\"}"), Err(ClassifyError::InvalidRef));
    assert_eq!(branch_for_ref(""), Err(ClassifyError::InvalidRef));
}

#[test]
fn bare_branch_name_is_its_own_last_segment() {
    assert_eq!(branch_for_ref("master"), Ok(Branch::Master));
    assert_eq!(branch_for_ref("dev"), Ok(Branch::Dev));
}

#[test]
fn trailing_slash_leaves_an_unknown_empty_segment() {
    assert_eq!(
        branch_for_ref("refs/heads/"),
        Err(ClassifyError::UnknownBranch)
    );
}

#[test]
fn deeper_paths_use_only_the_last_segment() {
    assert_eq!(branch_for_ref("refs/heads/wip/master"), Ok(Branch::Master));
    assert_eq!(
        branch_for_ref("refs/heads/master/wip"),
        Err(ClassifyError::UnknownBranch)
    );
}
