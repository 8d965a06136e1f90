use cloudformatious::status_reason::{
    EncodedAuthorizationMessage, MissingPermission, ResourceErrors, StatusReason,
    StatusReasonDetail,
};

#[test]
fn status_reason_detail() {
    let example = r"Resource creation cancelled";
    assert_eq!(
        StatusReasonDetail::new(example),
        Some(StatusReasonDetail::CreationCancelled)
    );

    let example = r"API: ec2:ModifyVpcAttribute You are not authorized to perform this operation. Encoded authorization failure message: g1-YvnBabE1x9q868e9rU4VX9gFjPpt31dEvX6uYDMWmdkou9pGLq85c3Wy4IAr3CwKrF8Jqu0aIkiy0TBM5SU22pSjE-gzZuP1dg5rvyhI1fl5DBB4DiDyRmZpOjovE2w0MMxuM4QFqf6zAtlbCtwdCYVxHwTpKrlkQAJEr40twnTPWe1_Vh-YRfprV9RBis8nReUcf87GV1oGFxjLujid4oOAinD-NmpIUR5VLCw2ycoOZihPR_unBC9stRioVeYiBg-Q1T5IU-J-xEQK092YuR-H4vqMm5Nwg4l1kN10t8pbFb_YopmILVfvh-ViLBbzE0cO6ZlvLvcMcB8crsbgLP10H05hPtHDIGUMwc_xM-y_9SUAcrVUfPKdM4JeMvNMLkFfuLcgMIjTivxG1y3DwligaBXrSwKVkkMB4XfswrU7nYT6PO0cIyD_v7vw5kPJP1EafEZGVMJrJJEwS43FVFkLCMIi6eSxyFTYRF4GUbkuXbTpfMxYdivdFdiofA6_JsC-AZXwcE3qXAHpJ3PrH6lYfWm8z0m8PATAQKTqlcEMIYNngNnmnqasBQ_anBj-C7BT4V_B67wOOhc_Vwheq6xKnsI7XfsTgzsmHdFZDVIBCrdw";
    assert_eq!(
        StatusReasonDetail::new(example),
        Some(StatusReasonDetail::MissingPermission(MissingPermission {
            permission: "ec2:ModifyVpcAttribute".to_string(),
            principal: None,
            encoded_authorization_message: Some(EncodedAuthorizationMessage::new("g1-YvnBabE1x9q868e9rU4VX9gFjPpt31dEvX6uYDMWmdkou9pGLq85c3Wy4IAr3CwKrF8Jqu0aIkiy0TBM5SU22pSjE-gzZuP1dg5rvyhI1fl5DBB4DiDyRmZpOjovE2w0MMxuM4QFqf6zAtlbCtwdCYVxHwTpKrlkQAJEr40twnTPWe1_Vh-YRfprV9RBis8nReUcf87GV1oGFxjLujid4oOAinD-NmpIUR5VLCw2ycoOZihPR_unBC9stRioVeYiBg-Q1T5IU-J-xEQK092YuR-H4vqMm5Nwg4l1kN10t8pbFb_YopmILVfvh-ViLBbzE0cO6ZlvLvcMcB8crsbgLP10H05hPtHDIGUMwc_xM-y_9SUAcrVUfPKdM4JeMvNMLkFfuLcgMIjTivxG1y3DwligaBXrSwKVkkMB4XfswrU7nYT6PO0cIyD_v7vw5kPJP1EafEZGVMJrJJEwS43FVFkLCMIi6eSxyFTYRF4GUbkuXbTpfMxYdivdFdiofA6_JsC-AZXwcE3qXAHpJ3PrH6lYfWm8z0m8PATAQKTqlcEMIYNngNnmnqasBQ_anBj-C7BT4V_B67wOOhc_Vwheq6xKnsI7XfsTgzsmHdFZDVIBCrdw")),
        }))
    );

    let example = r"API: s3:CreateBucket Access Denied";
    assert_eq!(
        StatusReasonDetail::new(example),
        Some(StatusReasonDetail::MissingPermission(MissingPermission {
            permission: "s3:CreateBucket".to_string(),
            principal: None,
            encoded_authorization_message: None,
        }))
    );

    let example = r#"Resource handler returned message: "User: arn:aws:iam::012345678910:user/cloudformatious-cli-testing is not authorized to perform: elasticfilesystem:CreateFileSystem on the specified resource (Service: Efs, Status Code: 403, Request ID: fedb2f85-ff52-496c-b7be-207a23072587, Extended Request ID: null)" (RequestToken: ccd41719-eae9-3614-3b35-1d1cc3ad55da, HandlerErrorCode: GeneralServiceException)"#;
    assert_eq!(
        StatusReasonDetail::new(example),
        Some(StatusReasonDetail::MissingPermission(MissingPermission {
            permission: "elasticfilesystem:CreateFileSystem".to_string(),
            principal: Some("arn:aws:iam::012345678910:user/cloudformatious-cli-testing".to_string()),
            encoded_authorization_message: None,
        }))
    );

    let example = r"The following resource(s) failed to create: [Vpc, Fs]. Rollback requested by user.";
    let detail = StatusReasonDetail::new(example).unwrap();
    assert_eq!(
        detail,
        StatusReasonDetail::ResourceErrors(ResourceErrors {
            logical_resource_ids: "Vpc, Fs".to_string(),
        })
    );
    if let StatusReasonDetail::ResourceErrors(resource_errors) = detail {
        assert_eq!(
            resource_errors.logical_resource_ids(),
            vec!["Vpc".to_string(), "Fs".to_string()]
        );
    } else {
        unreachable!()
    }
}

#[test]
fn status_reason_no_match() {
    assert_eq!(StatusReasonDetail::new("Internal failure"), None);
    assert_eq!(StatusReasonDetail::new(""), None);
    // An `API:` prefix without a well-formed permission is no match.
    assert_eq!(StatusReasonDetail::new("API: oops"), None);
}

#[test]
fn status_reason_authorization_failure_alone() {
    let example = "Encoded authorization failure message: abc_DEF-123";
    assert_eq!(
        StatusReasonDetail::new(example),
        Some(StatusReasonDetail::AuthorizationFailure(
            EncodedAuthorizationMessage::new("abc_DEF-123")
        ))
    );
}

#[test]
fn status_reason_wrapper() {
    let reason = StatusReason::new(Some("Resource creation cancelled"));
    assert_eq!(reason.inner(), Some("Resource creation cancelled"));
    assert_eq!(reason.detail(), Some(StatusReasonDetail::CreationCancelled));

    let empty = StatusReason::new(None);
    assert_eq!(empty.inner(), None);
    assert_eq!(empty.detail(), None);
}

#[test]
fn encoded_authorization_message_inner() {
    let message = EncodedAuthorizationMessage::new("opaque");
    assert_eq!(message.inner(), "opaque");
}

#[test]
fn resource_errors_single_id() {
    let example = "The following resource(s) failed to delete: [Bucket]. ";
    let detail = StatusReasonDetail::new(example).unwrap();
    if let StatusReasonDetail::ResourceErrors(resource_errors) = detail {
        assert_eq!(resource_errors.logical_resource_ids(), vec!["Bucket".to_string()]);
    } else {
        panic!("expected resource errors, got {:?}", detail);
    }
}

#[test]
fn resource_errors_equality_over_extracted_ids() {
    // Equality is over the extracted ids, not the raw captured text.
    let spaced = ResourceErrors { logical_resource_ids: "Vpc, Fs".to_string() };
    let tight = ResourceErrors { logical_resource_ids: "Vpc,Fs".to_string() };
    let other = ResourceErrors { logical_resource_ids: "Vpc".to_string() };
    assert_eq!(spaced, tight);
    assert_ne!(spaced, other);
}
