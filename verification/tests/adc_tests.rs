use hall_monitor::adc::{AdcResponse, ScriptedAdc};

#[test]
fn poll_value_is_ready() {
    let polled: Result<u16, nb::Error<()>> = Ok(1500);
    assert_eq!(AdcResponse::from_poll(polled), AdcResponse::Ready(1500));
}

#[test]
fn poll_zero_and_max_are_ready() {
    let low: Result<u16, nb::Error<()>> = Ok(0);
    let high: Result<u16, nb::Error<()>> = Ok(u16::MAX);
    assert_eq!(AdcResponse::from_poll(low), AdcResponse::Ready(0));
    assert_eq!(AdcResponse::from_poll(high), AdcResponse::Ready(u16::MAX));
}

#[test]
fn poll_would_block_is_not_ready() {
    let polled: Result<u16, nb::Error<()>> = Err(nb::Error::WouldBlock);
    assert_eq!(AdcResponse::from_poll(polled), AdcResponse::NotReady);
}

#[test]
fn poll_other_is_error() {
    let polled: Result<u16, nb::Error<()>> = Err(nb::Error::Other(()));
    assert_eq!(AdcResponse::from_poll(polled), AdcResponse::Error);
}

#[test]
fn poll_other_drops_payload() {
    let polled: Result<u16, nb::Error<u32>> = Err(nb::Error::Other(77));
    assert_eq!(AdcResponse::from_poll(polled), AdcResponse::Error);
    let blocked: Result<u16, nb::Error<u32>> = Err(nb::Error::WouldBlock);
    assert_eq!(AdcResponse::from_poll(blocked), AdcResponse::NotReady);
}

#[test]
fn scripted_adc_answers_in_order() {
    let mut adc = ScriptedAdc::new(vec![
        AdcResponse::NotReady,
        AdcResponse::Ready(12),
        AdcResponse::Error,
    ]);
    assert_eq!(adc.remaining(), 3);
    assert_eq!(adc.attempt_conversion(), Some(AdcResponse::NotReady));
    assert_eq!(adc.remaining(), 2);
    assert_eq!(adc.attempt_conversion(), Some(AdcResponse::Ready(12)));
    assert_eq!(adc.attempt_conversion(), Some(AdcResponse::Error));
    assert_eq!(adc.remaining(), 0);
}

#[test]
fn scripted_adc_is_silent_when_used_up() {
    let mut adc = ScriptedAdc::new(vec![AdcResponse::Ready(1)]);
    assert_eq!(adc.attempt_conversion(), Some(AdcResponse::Ready(1)));
    assert_eq!(adc.attempt_conversion(), None);
    assert_eq!(adc.attempt_conversion(), None);
    assert_eq!(adc.remaining(), 0);
}

#[test]
fn scripted_adc_empty_script() {
    let mut adc = ScriptedAdc::new(Vec::new());
    assert_eq!(adc.remaining(), 0);
    assert_eq!(adc.attempt_conversion(), None);
}
