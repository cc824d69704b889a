use hemion::accountability::{
    dimension_class, dimension_labels, dimension_name, reason_sentence, status_label, AssuranceDimension,
    DimensionStatus,
};

#[test]
fn labels_preserve_uncertainty_and_rev03_external_wording() {
    assert_eq!(status_label(DimensionStatus::Indeterminate).1, "Cannot be determined");
    assert_eq!(status_label(DimensionStatus::NotApplicable).1, "Not applicable");
    assert_eq!(dimension_labels(AssuranceDimension::ExternalCorroboration).0, "External source support");
}

#[test]
fn every_dimension_has_plain_and_protocol_names() {
    assert_eq!(dimension_labels(AssuranceDimension::StructuralIntegrity), ("Format & integrity", "Structural"));
    assert_eq!(dimension_labels(AssuranceDimension::SingleUse), ("Used only once", "Single-use"));
    assert_eq!(dimension_name(AssuranceDimension::SingleUse), "SingleUse");
    assert_eq!(dimension_name(AssuranceDimension::StructuralIntegrity), "Structural");
    assert_eq!(
        reason_sentence(DimensionStatus::NotSatisfied),
        "The verifier found that an evaluated requirement was not met."
    );
    assert_eq!(dimension_class(DimensionStatus::NotSatisfied), "assurance-dimension assurance-dimension-failed");
}
