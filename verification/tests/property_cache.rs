use tss_esapi::capability::{CapabilityData, CapabilityRequest, CapabilityType, TaggedProperty};
use tss_esapi::context::Context;
use tss_esapi::errors::{Error, WrapperErrorKind};
use tss_esapi::session::AuthSession;

fn batch(entries: &[(u32, u32)]) -> CapabilityData {
    let mut v = Vec::new();
    for &(property, value) in entries {
        v.push(TaggedProperty { property, value });
    }
    CapabilityData::TpmProperties(v)
}

#[test]
fn miss_issues_one_query_and_caches_the_whole_batch() {
    let mut ctx = Context::new(1);
    let r = ctx.get_tpm_property(0x100, |_: &mut Context, req: CapabilityRequest| {
        assert_eq!(req.capability, CapabilityType::TpmProperties);
        assert_eq!(req.starting_property, 0x100);
        assert_eq!(req.property_count, 4);
        Ok(batch(&[(0x100, 10), (0x101, 11), (0x102, 12), (0x103, 13)]))
    });
    assert_eq!(r, Ok(Some(10)));
    assert_eq!(ctx.lookup_cached_property(0x100), Some(10));
    assert_eq!(ctx.lookup_cached_property(0x103), Some(13));
    assert_eq!(ctx.lookup_cached_property(0x104), None);
}

#[test]
fn second_lookup_is_served_from_cache_alone() {
    let mut ctx = Context::new(1);
    let first = ctx.get_tpm_property(0x100, |_: &mut Context, _req: CapabilityRequest| {
        Ok(batch(&[(0x100, 10), (0x101, 11)]))
    });
    assert_eq!(first, Ok(Some(10)));
    let second = ctx.get_tpm_property(0x100, |_: &mut Context, _req: CapabilityRequest| {
        panic!("a cached tag must not issue a second capability query")
    });
    assert_eq!(second, first);
    let neighbour = ctx.get_tpm_property(0x101, |_: &mut Context, _req: CapabilityRequest| {
        panic!("an over-fetched neighbour tag must be served from the cache too")
    });
    assert_eq!(neighbour, Ok(Some(11)));
}

#[test]
fn tag_absent_from_the_batch_yields_none() {
    let mut ctx = Context::new(1);
    let r = ctx.get_tpm_property(0x200, |_: &mut Context, _req: CapabilityRequest| {
        Ok(batch(&[(0x201, 21), (0x202, 22)]))
    });
    assert_eq!(r, Ok(None));
    assert_eq!(ctx.lookup_cached_property(0x201), Some(21));
}

#[test]
fn unexpected_response_shape_is_a_wrong_value_error() {
    let mut ctx = Context::new(1);
    let r = ctx.get_tpm_property(0x100, |_: &mut Context, _req: CapabilityRequest| {
        Ok(CapabilityData::OtherShape)
    });
    assert_eq!(r, Err(Error::WrapperError(WrapperErrorKind::WrongValueFromTpm)));
    assert_eq!(ctx.lookup_cached_property(0x100), None);
}

#[test]
fn query_failure_is_propagated_and_nothing_is_cached() {
    let mut ctx = Context::new(1);
    let r = ctx.get_tpm_property(0x100, |_: &mut Context, _req: CapabilityRequest| {
        Err(Error::Tss2Error(0x921))
    });
    assert_eq!(r, Err(Error::Tss2Error(0x921)));
    assert_eq!(ctx.lookup_cached_property(0x100), None);
}

#[test]
fn query_runs_without_sessions_and_sessions_are_restored() {
    let mut ctx = Context::new(1);
    let initial = (Some(AuthSession::Password), Some(AuthSession::HmacSession(5)), None);
    ctx.set_sessions(initial);
    let r = ctx.get_tpm_property(0x100, |c: &mut Context, _req: CapabilityRequest| {
        assert_eq!(c.sessions(), (None, None, None));
        Ok(batch(&[(0x100, 10)]))
    });
    assert_eq!(r, Ok(Some(10)));
    assert_eq!(ctx.sessions(), initial);
}

#[test]
fn a_fresh_report_shadows_an_older_cache_entry() {
    let mut ctx = Context::new(1);
    let r = ctx.get_tpm_property(0x300, |_: &mut Context, _req: CapabilityRequest| {
        Ok(batch(&[(0x300, 1), (0x301, 2)]))
    });
    assert_eq!(r, Ok(Some(1)));
    let r = ctx.get_tpm_property(0x302, |_: &mut Context, _req: CapabilityRequest| {
        Ok(batch(&[(0x301, 20), (0x302, 30)]))
    });
    assert_eq!(r, Ok(Some(30)));
    assert_eq!(ctx.lookup_cached_property(0x301), Some(20));
    assert_eq!(ctx.lookup_cached_property(0x300), Some(1));
}
