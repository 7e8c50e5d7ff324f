use vstd::prelude::*;

verus! {

/// Failure kinds surfaced by the bridge to the host application.
///
/// Every host-invoked operation reports a failure as one of these kinds; the
/// host can then read the corresponding text through the last-error property.
#[derive(Clone, Copy, Debug, PartialEq, Eq, Structural)]
pub enum BridgeError {
    /// A server is already listening for this instance.
    AlreadyRunning,
    /// No server is listening for this instance.
    NotRunning,
    /// The listening or connection address cannot be parsed.
    InvalidAddress,
    /// The status code lies outside the range 100..=599.
    InvalidStatusCode,
    /// The header payload is not a JSON object.
    InvalidHeadersPayload,
    /// No pending request with the given identifier exists.
    RequestNotFound,
    /// No open streaming session with the given identifier exists.
    SessionNotFound,
    /// The notification channel toward the host is not initialized.
    DeliveryUnavailable,
    /// The notification channel toward the host is saturated.
    DeliveryQueueFull,
    /// The waiting network task abandoned its wait before fulfilment.
    ResponseChannelClosed,
    /// No fulfilment arrived within the timeout window.
    HandlerTimeout,
    /// No WebSocket connection is established.
    NoConnection,
    /// The WebSocket handshake failed.
    ConnectFailed,
    /// A malformed or non-text WebSocket frame arrived.
    ProtocolError,
}

/// The text reported through the last-error property for each failure kind.
pub open spec fn error_text(e: BridgeError) -> Seq<char> {
    match e {
        BridgeError::AlreadyRunning => "HTTP сервер уже запущен"@,
        BridgeError::NotRunning => "HTTP сервер не запущен"@,
        BridgeError::InvalidAddress => "Некорректный адрес"@,
        BridgeError::InvalidStatusCode => "Некорректный HTTP статус"@,
        BridgeError::InvalidHeadersPayload => "Некорректные заголовки"@,
        BridgeError::RequestNotFound => "Не найден ожидающий ответ запрос"@,
        BridgeError::SessionNotFound => "SSE сессия не найдена"@,
        BridgeError::DeliveryUnavailable => "Event connection is unavailable"@,
        BridgeError::DeliveryQueueFull => "Event queue is full"@,
        BridgeError::ResponseChannelClosed => "Не удалось отправить ответ"@,
        BridgeError::HandlerTimeout => "Handler timeout"@,
        BridgeError::NoConnection => "Отсутствует установленное соединение!"@,
        BridgeError::ConnectFailed => "Не удалось установить соединение"@,
        BridgeError::ProtocolError => "Некорректный кадр WebSocket"@,
    }
}

impl BridgeError {
    /// Human-readable description of the failure, as the host retrieves it.
    pub fn message(&self) -> (r: String)
        ensures
            r@ == error_text(*self),
    {
        match self {
            BridgeError::AlreadyRunning => "HTTP сервер уже запущен".to_owned(),
            BridgeError::NotRunning => "HTTP сервер не запущен".to_owned(),
            BridgeError::InvalidAddress => "Некорректный адрес".to_owned(),
            BridgeError::InvalidStatusCode => "Некорректный HTTP статус".to_owned(),
            BridgeError::InvalidHeadersPayload => "Некорректные заголовки".to_owned(),
            BridgeError::RequestNotFound => "Не найден ожидающий ответ запрос".to_owned(),
            BridgeError::SessionNotFound => "SSE сессия не найдена".to_owned(),
            BridgeError::DeliveryUnavailable => "Event connection is unavailable".to_owned(),
            BridgeError::DeliveryQueueFull => "Event queue is full".to_owned(),
            BridgeError::ResponseChannelClosed => "Не удалось отправить ответ".to_owned(),
            BridgeError::HandlerTimeout => "Handler timeout".to_owned(),
            BridgeError::NoConnection => "Отсутствует установленное соединение!".to_owned(),
            BridgeError::ConnectFailed => "Не удалось установить соединение".to_owned(),
            BridgeError::ProtocolError => "Некорректный кадр WebSocket".to_owned(),
        }
    }
}

} // verus!
