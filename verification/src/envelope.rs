//! The envelope in which the platform, and this gateway, wrap every JSON
//! response.

use crate::token::AccessToken;
use vstd::prelude::*;

verus! {

/// A response envelope: an application-level code and message, the payload
/// if there is one, and the identifier under which the platform traced the
/// call.
#[derive(Debug, Clone)]
pub struct ApiResponse<T> {
    pub code: i32,
    pub message: String,
    pub data: Option<T>,
    pub x_trace_id: String,
}

/// What an [`ApiResponse`] holds, its payload taken by its view.
pub struct ApiResponseView<V> {
    pub code: i32,
    pub message: Seq<char>,
    pub data: Option<V>,
    pub x_trace_id: Seq<char>,
}

impl<T: DeepView> DeepView for ApiResponse<T> {
    type V = ApiResponseView<T::V>;

    open spec fn deep_view(&self) -> ApiResponseView<T::V> {
        ApiResponseView {
            code: self.code,
            message: self.message@,
            data: self.data.deep_view(),
            x_trace_id: self.x_trace_id@,
        }
    }
}

impl<T> ApiResponse<T> {
    /// An envelope that carries `data`.
    pub fn new(code: i32, message: String, data: T, x_trace_id: String) -> (r: ApiResponse<T>)
        ensures
            r.code == code,
            r.message == message,
            r.data == Some(data),
            r.x_trace_id == x_trace_id,
    {
        ApiResponse { code: code, message: message, data: Some(data), x_trace_id: x_trace_id }
    }
}

/// A payload together with the caller's wish to have the answer cached.
#[derive(Debug)]
pub struct RequestConfig<T> {
    pub cache: bool,
    pub data: T,
}

impl<T> RequestConfig<T> {
    pub fn new(cache: bool, data: T) -> (r: RequestConfig<T>)
        ensures
            r.cache == cache,
            r.data == data,
    {
        RequestConfig { cache: cache, data: data }
    }
}

/// The envelope of the token endpoint.
pub type AccessTokenResponse = ApiResponse<AccessToken>;

} // verus!
