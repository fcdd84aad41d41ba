use vstd::prelude::*;
use vstd::string::*;
use crate::text::str_eq;

verus! {

/// Everything that can go wrong in the bot. Each variant carries the text
/// that describes the failure; failures raised by a collaborator carry the
/// collaborator's own description.
#[derive(Debug, Clone, PartialEq, Eq)]
pub enum BotError {
    ValidationError { message: String },
    SerdeJsonError { message: String },
    ParseIntError { message: String },
    JemallocCtlError { message: String },
    SeaOrmError { message: String },
    IoError { message: String },
    SerenityError { message: String },
    DatabaseError { message: String },
    DiscordError { message: String },
    ReqwestError { message: String },
    ConfigError { message: String },
    SerdeError { message: String },
    NotFoundError { message: String },
    AuthorizationError { message: String },
    RateLimitError { message: String },
    TimeoutError { message: String },
    GenericError { message: String },
}

impl BotError {
    /// The text carried by the error.
    pub open spec fn message_text(self) -> Seq<char> {
        match self {
            BotError::ValidationError { message } => message@,
            BotError::SerdeJsonError { message } => message@,
            BotError::ParseIntError { message } => message@,
            BotError::JemallocCtlError { message } => message@,
            BotError::SeaOrmError { message } => message@,
            BotError::IoError { message } => message@,
            BotError::SerenityError { message } => message@,
            BotError::DatabaseError { message } => message@,
            BotError::DiscordError { message } => message@,
            BotError::ReqwestError { message } => message@,
            BotError::ConfigError { message } => message@,
            BotError::SerdeError { message } => message@,
            BotError::NotFoundError { message } => message@,
            BotError::AuthorizationError { message } => message@,
            BotError::RateLimitError { message } => message@,
            BotError::TimeoutError { message } => message@,
            BotError::GenericError { message } => message@,
        }
    }

    /// What a user is told about the error: the text of a validation error,
    /// a fixed sentence for every other kind.
    pub open spec fn user_message_text(self) -> Seq<char> {
        match self {
            BotError::ValidationError { message } => message@,
            BotError::DatabaseError { .. } => "数据库连接出现问题，请稍后再试"@,
            BotError::DiscordError { .. } => "Discord服务暂时不可用，请稍后再试"@,
            BotError::SerdeError { .. } => "数据处理出现问题，请稍后再试"@,
            BotError::ReqwestError { .. } => "网络连接出现问题，请检查网络连接"@,
            BotError::ConfigError { .. } => "系统配置出现问题，请联系管理员"@,
            BotError::IoError { .. } => "文件操作出现问题，请稍后再试"@,
            BotError::NotFoundError { .. } => "未找到相关内容"@,
            BotError::AuthorizationError { .. } => "您没有权限执行此操作"@,
            BotError::RateLimitError { .. } => "操作太频繁，请稍后再试"@,
            BotError::TimeoutError { .. } => "操作超时，请稍后再试"@,
            BotError::GenericError { .. } => "操作失败，请稍后再试"@,
            _ => "发生未知错误，请稍后再试"@,
        }
    }

    /// What a user is told when `operation` failed with this error: reloading
    /// the licenses has sentences of its own for unreadable and malformed
    /// files, everything else falls back to `user_message_text`.
    pub open spec fn operation_message_text(self, operation: Seq<char>) -> Seq<char> {
        if operation == "reload_licenses"@ && self is IoError {
            "协议文件读取失败，请检查文件是否存在"@
        } else if operation == "reload_licenses"@ && self is SerdeError {
            "协议文件格式错误，请检查文件格式"@
        } else {
            self.user_message_text()
        }
    }

    /// The advice that goes with the error, for the kinds that have one.
    pub open spec fn user_suggestion_text(self) -> Option<Seq<char>> {
        match self {
            BotError::RateLimitError { .. } => Some("请等待几秒后再试"@),
            BotError::AuthorizationError { .. } => Some("请联系管理员获取相应权限"@),
            BotError::ReqwestError { .. } => Some("请检查网络连接，或联系管理员"@),
            _ => None,
        }
    }

    /// The full description of the error: the kind of failure before the
    /// text, or the collaborator's own description alone.
    pub open spec fn description_text(self) -> Seq<char> {
        match self {
            BotError::ValidationError { message } => "验证失败: "@ + message@,
            BotError::DatabaseError { message } => "数据库错误: "@ + message@,
            BotError::DiscordError { message } => "Discord API错误: "@ + message@,
            BotError::ReqwestError { message } => "网络请求错误: "@ + message@,
            BotError::ConfigError { message } => "配置错误: "@ + message@,
            BotError::SerdeError { message } => "序列化错误: "@ + message@,
            BotError::NotFoundError { message } => "未找到: "@ + message@,
            BotError::AuthorizationError { message } => "权限不足: "@ + message@,
            BotError::RateLimitError { message } => "操作频率限制: "@ + message@,
            BotError::TimeoutError { message } => "操作超时: "@ + message@,
            _ => self.message_text(),
        }
    }

    /// What a user is told when `operation` failed: the message, marked as
    /// a failure, and the advice on a line of its own where there is one.
    pub open spec fn operation_report_text(self, operation: Seq<char>) -> Seq<char> {
        match self.user_suggestion_text() {
            Some(advice) => "❌ "@ + self.operation_message_text(operation) + "\n💡 "@ + advice,
            None => "❌ "@ + self.operation_message_text(operation),
        }
    }

    /// A generic error with the given text.
    pub fn generic(message: &str) -> (e: BotError)
        ensures
            e is GenericError,
            e.message_text() == message@,
    {
        BotError::GenericError { message: String::from_str(message) }
    }

    /// An equal error, owned by the caller.
    pub fn duplicate(&self) -> (e: BotError)
        ensures
            e == *self,
    {
        match self {
            BotError::ValidationError { message } => BotError::ValidationError {
                message: message.clone(),
            },
            BotError::SerdeJsonError { message } => BotError::SerdeJsonError {
                message: message.clone(),
            },
            BotError::ParseIntError { message } => BotError::ParseIntError {
                message: message.clone(),
            },
            BotError::JemallocCtlError { message } => BotError::JemallocCtlError {
                message: message.clone(),
            },
            BotError::SeaOrmError { message } => BotError::SeaOrmError { message: message.clone() },
            BotError::IoError { message } => BotError::IoError { message: message.clone() },
            BotError::SerenityError { message } => BotError::SerenityError {
                message: message.clone(),
            },
            BotError::DatabaseError { message } => BotError::DatabaseError {
                message: message.clone(),
            },
            BotError::DiscordError { message } => BotError::DiscordError {
                message: message.clone(),
            },
            BotError::ReqwestError { message } => BotError::ReqwestError {
                message: message.clone(),
            },
            BotError::ConfigError { message } => BotError::ConfigError { message: message.clone() },
            BotError::SerdeError { message } => BotError::SerdeError { message: message.clone() },
            BotError::NotFoundError { message } => BotError::NotFoundError {
                message: message.clone(),
            },
            BotError::AuthorizationError { message } => BotError::AuthorizationError {
                message: message.clone(),
            },
            BotError::RateLimitError { message } => BotError::RateLimitError {
                message: message.clone(),
            },
            BotError::TimeoutError { message } => BotError::TimeoutError {
                message: message.clone(),
            },
            BotError::GenericError { message } => BotError::GenericError {
                message: message.clone(),
            },
        }
    }

    /// The full description of the error, for logs.
    pub fn describe(&self) -> (text: String)
        ensures
            text@ == self.description_text(),
    {
        match self {
            BotError::ValidationError { message } => String::from_str("验证失败: ").concat(
                message.as_str(),
            ),
            BotError::DatabaseError { message } => String::from_str("数据库错误: ").concat(
                message.as_str(),
            ),
            BotError::DiscordError { message } => String::from_str("Discord API错误: ").concat(
                message.as_str(),
            ),
            BotError::ReqwestError { message } => String::from_str("网络请求错误: ").concat(
                message.as_str(),
            ),
            BotError::ConfigError { message } => String::from_str("配置错误: ").concat(
                message.as_str(),
            ),
            BotError::SerdeError { message } => String::from_str("序列化错误: ").concat(
                message.as_str(),
            ),
            BotError::NotFoundError { message } => String::from_str("未找到: ").concat(
                message.as_str(),
            ),
            BotError::AuthorizationError { message } => String::from_str("权限不足: ").concat(
                message.as_str(),
            ),
            BotError::RateLimitError { message } => String::from_str("操作频率限制: ").concat(
                message.as_str(),
            ),
            BotError::TimeoutError { message } => String::from_str("操作超时: ").concat(
                message.as_str(),
            ),
            BotError::SerdeJsonError { message } => message.clone(),
            BotError::ParseIntError { message } => message.clone(),
            BotError::JemallocCtlError { message } => message.clone(),
            BotError::SeaOrmError { message } => message.clone(),
            BotError::IoError { message } => message.clone(),
            BotError::SerenityError { message } => message.clone(),
            BotError::GenericError { message } => message.clone(),
        }
    }

    /// The message shown to the user.
    pub fn user_message(&self) -> (text: String)
        ensures
            text@ == self.user_message_text(),
    {
        match self {
            BotError::ValidationError { message } => message.clone(),
            BotError::DatabaseError { .. } => String::from_str("数据库连接出现问题，请稍后再试"),
            BotError::DiscordError { .. } => String::from_str("Discord服务暂时不可用，请稍后再试"),
            BotError::SerdeError { .. } => String::from_str("数据处理出现问题，请稍后再试"),
            BotError::ReqwestError { .. } => String::from_str("网络连接出现问题，请检查网络连接"),
            BotError::ConfigError { .. } => String::from_str("系统配置出现问题，请联系管理员"),
            BotError::IoError { .. } => String::from_str("文件操作出现问题，请稍后再试"),
            BotError::NotFoundError { .. } => String::from_str("未找到相关内容"),
            BotError::AuthorizationError { .. } => String::from_str("您没有权限执行此操作"),
            BotError::RateLimitError { .. } => String::from_str("操作太频繁，请稍后再试"),
            BotError::TimeoutError { .. } => String::from_str("操作超时，请稍后再试"),
            BotError::GenericError { .. } => String::from_str("操作失败，请稍后再试"),
            _ => String::from_str("发生未知错误，请稍后再试"),
        }
    }

    /// The message shown to the user when `operation` failed.
    pub fn operation_message(&self, operation: &str) -> (text: String)
        ensures
            text@ == self.operation_message_text(operation@),
    {
        let reloading = str_eq(operation, "reload_licenses");
        match self {
            BotError::IoError { .. } => {
                if reloading {
                    return String::from_str("协议文件读取失败，请检查文件是否存在");
                }
            },
            BotError::SerdeError { .. } => {
                if reloading {
                    return String::from_str("协议文件格式错误，请检查文件格式");
                }
            },
            _ => {},
        }
        self.user_message()
    }

    /// The report shown to the user when `operation` failed.
    pub fn operation_report(&self, operation: &str) -> (text: String)
        ensures
            text@ == self.operation_report_text(operation@),
    {
        let message = self.operation_message(operation);
        let marked = String::from_str("❌ ").concat(message.as_str());
        match self.user_suggestion() {
            Some(advice) => marked.concat("\n💡 ").concat(advice.as_str()),
            None => marked,
        }
    }

    /// The advice shown next to the message, if the kind of error has one.
    pub fn user_suggestion(&self) -> (advice: Option<String>)
        ensures
            advice.is_some() == self.user_suggestion_text().is_some(),
            advice.is_some() ==> advice.unwrap()@ == self.user_suggestion_text().unwrap(),
    {
        match self {
            BotError::RateLimitError { .. } => Some(String::from_str("请等待几秒后再试")),
            BotError::AuthorizationError { .. } => Some(
                String::from_str("请联系管理员获取相应权限"),
            ),
            BotError::ReqwestError { .. } => Some(String::from_str("请检查网络连接，或联系管理员")),
            _ => None,
        }
    }
}

} // verus!
