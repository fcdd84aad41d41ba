use vstd::prelude::*;
use vstd::string::*;
use crate::error::BotError;
use crate::text::{chars_contain_str, contains, contains_text, str_eq, to_chars};

verus! {

/// A message mentions a technical term: a word of the implementation, a
/// path separator or a file suffix, none of which a user should see.
pub open spec fn mentions_technical_term(message: Seq<char>) -> bool {
        ||| contains_text(message, "error"@)
        ||| contains_text(message, "Error"@)
        ||| contains_text(message, "failed"@)
        ||| contains_text(message, "Failed"@)
        ||| contains_text(message, "panic"@)
        ||| contains_text(message, "Panic"@)
        ||| contains_text(message, "database"@)
        ||| contains_text(message, "Database"@)
        ||| contains_text(message, "sql"@)
        ||| contains_text(message, "SQL"@)
        ||| contains_text(message, "sqlite"@)
        ||| contains_text(message, "SQLite"@)
        ||| contains_text(message, "/"@)
        ||| contains_text(message, "\\"@)
        ||| contains_text(message, "src/"@)
        ||| contains_text(message, "target/"@)
        ||| contains_text(message, ".rs"@)
        ||| contains_text(message, ".toml"@)
        ||| contains_text(message, "thread"@)
        ||| contains_text(message, "Thread"@)
        ||| contains_text(message, "mutex"@)
        ||| contains_text(message, "Mutex"@)
        ||| contains_text(message, "channel"@)
        ||| contains_text(message, "Channel"@)
        ||| contains_text(message, "http"@)
        ||| contains_text(message, "Http"@)
        ||| contains_text(message, "HTTP"@)
        ||| contains_text(message, "https"@)
        ||| contains_text(message, "HTTPS"@)
        ||| contains_text(message, "tcp"@)
        ||| contains_text(message, "TCP"@)
        ||| contains_text(message, "deserialize"@)
        ||| contains_text(message, "serialize"@)
        ||| contains_text(message, "json"@)
        ||| contains_text(message, "JSON"@)
        ||| contains_text(message, "xml"@)
        ||| contains_text(message, "XML"@)
        ||| contains_text(message, "tokio"@)
        ||| contains_text(message, "async"@)
        ||| contains_text(message, "await"@)
        ||| contains_text(message, "future"@)
        ||| contains_text(message, "Future"@)
        ||| contains_text(message, "NoneError"@)
        ||| contains_text(message, "UnwrapError"@)
        ||| contains_text(message, "ParseError"@)
        ||| contains_text(message, "IoError"@)
}

/// A message can be shown to a user as it is: it mentions no technical term.
pub open spec fn user_friendly(message: Seq<char>) -> bool {
    !mentions_technical_term(message)
}

/// What a user is told about an error. A generic error keeps its own text if
/// that text is fit for users; a validation error always keeps it; every
/// other kind has a fixed sentence.
pub open spec fn map_error_text(error: BotError) -> Seq<char> {
    match error {
        BotError::GenericError { message } => if user_friendly(message@) {
            message@
        } else {
            "操作失败，请稍后再试"@
        },
        BotError::DatabaseError { .. } => "数据库连接出现问题，请稍后再试"@,
        BotError::DiscordError { .. } => "Discord服务暂时不可用，请稍后再试"@,
        BotError::SerdeError { .. } => "数据处理出现问题，请稍后再试"@,
        BotError::ReqwestError { .. } => "网络连接出现问题，请检查网络连接"@,
        BotError::ConfigError { .. } => "系统配置出现问题，请联系管理员"@,
        BotError::IoError { .. } => "文件操作出现问题，请稍后再试"@,
        BotError::ValidationError { message } => message@,
        BotError::NotFoundError { .. } => "未找到相关内容"@,
        BotError::AuthorizationError { .. } => "您没有权限执行此操作"@,
        BotError::RateLimitError { .. } => "操作太频繁，请稍后再试"@,
        BotError::TimeoutError { .. } => "操作超时，请稍后再试"@,
        _ => "发生未知错误，请稍后再试"@,
    }
}

/// What a user is told when the named operation failed with `error`. Each
/// known operation has sentences of its own; an unknown one gets
/// `map_error_text`.
pub open spec fn map_operation_error_text(operation: Seq<char>, error: BotError) -> Seq<char> {
        if operation == "create_license"@ {
            match error {
                BotError::ValidationError { .. } => map_error_text(error),
                BotError::DatabaseError { .. } => "协议创建失败，请稍后再试"@,
                BotError::NotFoundError { .. } => "无法创建协议，请检查输入信息"@,
                _ => "协议创建失败，请稍后再试"@,
            }
        } else if operation == "update_license"@ {
            match error {
                BotError::NotFoundError { .. } => "找不到要更新的协议"@,
                BotError::AuthorizationError { .. } => "您没有权限修改此协议"@,
                BotError::ValidationError { .. } => map_error_text(error),
                _ => "协议更新失败，请稍后再试"@,
            }
        } else if operation == "delete_license"@ {
            match error {
                BotError::NotFoundError { .. } => "找不到要删除的协议"@,
                BotError::AuthorizationError { .. } => "您没有权限删除此协议"@,
                _ => "协议删除失败，请稍后再试"@,
            }
        } else if operation == "publish_license"@ {
            match error {
                BotError::NotFoundError { .. } => "找不到要发布的协议"@,
                BotError::AuthorizationError { .. } => "您没有权限在此频道发布协议"@,
                BotError::DiscordError { .. } => "Discord消息发送失败，请稍后再试"@,
                _ => "协议发布失败，请稍后再试"@,
            }
        } else if operation == "reload_licenses"@ {
            match error {
                BotError::IoError { .. } => "协议文件读取失败，请检查文件是否存在"@,
                BotError::SerdeError { .. } => "协议文件格式错误，请检查文件格式"@,
                BotError::AuthorizationError { .. } => "您没有权限重载系统协议"@,
                _ => "协议重载失败，请稍后再试"@,
            }
        } else if operation == "backup_notification"@ {
            match error {
                BotError::ReqwestError { .. } => "备份通知发送失败，但协议已正常发布"@,
                BotError::TimeoutError { .. } => "备份通知发送超时，但协议已正常发布"@,
                _ => "备份通知发送失败，但协议已正常发布"@,
            }
        } else {
            map_error_text(error)
        }
}

/// The advice for an error. A validation error is advised by what its text
/// speaks of (the name first, then the length, then the format).
pub open spec fn user_suggestion_text(error: BotError) -> Option<Seq<char>> {
    match error {
        BotError::ValidationError { message } => {
            if contains_text(message@, "name"@) || contains_text(message@, "名称"@) {
                Some("请确保协议名称不为空且长度在1-50个字符之间"@)
            } else if contains_text(message@, "length"@) || contains_text(message@, "长度"@) {
                Some("请检查输入内容的长度是否符合要求"@)
            } else if contains_text(message@, "format"@) || contains_text(message@, "格式"@) {
                Some("请检查输入内容的格式是否正确"@)
            } else {
                None
            }
        },
        BotError::RateLimitError { .. } => Some("请等待几秒后再试"@),
        BotError::AuthorizationError { .. } => Some("请联系管理员获取相应权限"@),
        BotError::ReqwestError { .. } => Some("请检查网络连接，或联系管理员"@),
        _ => None,
    }
}

/// Turns errors into messages that can be shown to users.
pub struct UserFriendlyErrorMapper;

impl UserFriendlyErrorMapper {
    /// The message for `error`.
    pub fn map_error(error: &BotError) -> (text: String)
        ensures
            text@ == map_error_text(*error),
    {
        match error {
            BotError::GenericError { message } => {
                if Self::is_user_friendly_message(message.as_str()) {
                    message.clone()
                } else {
                    String::from_str("操作失败，请稍后再试")
                }
            },
            BotError::DatabaseError { .. } => String::from_str("数据库连接出现问题，请稍后再试"),
            BotError::DiscordError { .. } => String::from_str("Discord服务暂时不可用，请稍后再试"),
            BotError::SerdeError { .. } => String::from_str("数据处理出现问题，请稍后再试"),
            BotError::ReqwestError { .. } => String::from_str("网络连接出现问题，请检查网络连接"),
            BotError::ConfigError { .. } => String::from_str("系统配置出现问题，请联系管理员"),
            BotError::IoError { .. } => String::from_str("文件操作出现问题，请稍后再试"),
            BotError::ValidationError { message } => message.clone(),
            BotError::NotFoundError { .. } => String::from_str("未找到相关内容"),
            BotError::AuthorizationError { .. } => String::from_str("您没有权限执行此操作"),
            BotError::RateLimitError { .. } => String::from_str("操作太频繁，请稍后再试"),
            BotError::TimeoutError { .. } => String::from_str("操作超时，请稍后再试"),
            _ => String::from_str("发生未知错误，请稍后再试"),
        }
    }

    /// Whether `message` can be shown to a user as it is.
    pub fn is_user_friendly_message(message: &str) -> (friendly: bool)
        ensures
            friendly == user_friendly(message@),
    {
        let hay = to_chars(message);
        let technical = chars_contain_str(&hay, "error")
            || chars_contain_str(&hay, "Error")
            || chars_contain_str(&hay, "failed")
            || chars_contain_str(&hay, "Failed")
            || chars_contain_str(&hay, "panic")
            || chars_contain_str(&hay, "Panic")
            || chars_contain_str(&hay, "database")
            || chars_contain_str(&hay, "Database")
            || chars_contain_str(&hay, "sql")
            || chars_contain_str(&hay, "SQL")
            || chars_contain_str(&hay, "sqlite")
            || chars_contain_str(&hay, "SQLite")
            || chars_contain_str(&hay, "/")
            || chars_contain_str(&hay, "\\")
            || chars_contain_str(&hay, "src/")
            || chars_contain_str(&hay, "target/")
            || chars_contain_str(&hay, ".rs")
            || chars_contain_str(&hay, ".toml")
            || chars_contain_str(&hay, "thread")
            || chars_contain_str(&hay, "Thread")
            || chars_contain_str(&hay, "mutex")
            || chars_contain_str(&hay, "Mutex")
            || chars_contain_str(&hay, "channel")
            || chars_contain_str(&hay, "Channel")
            || chars_contain_str(&hay, "http")
            || chars_contain_str(&hay, "Http")
            || chars_contain_str(&hay, "HTTP")
            || chars_contain_str(&hay, "https")
            || chars_contain_str(&hay, "HTTPS")
            || chars_contain_str(&hay, "tcp")
            || chars_contain_str(&hay, "TCP")
            || chars_contain_str(&hay, "deserialize")
            || chars_contain_str(&hay, "serialize")
            || chars_contain_str(&hay, "json")
            || chars_contain_str(&hay, "JSON")
            || chars_contain_str(&hay, "xml")
            || chars_contain_str(&hay, "XML")
            || chars_contain_str(&hay, "tokio")
            || chars_contain_str(&hay, "async")
            || chars_contain_str(&hay, "await")
            || chars_contain_str(&hay, "future")
            || chars_contain_str(&hay, "Future")
            || chars_contain_str(&hay, "NoneError")
            || chars_contain_str(&hay, "UnwrapError")
            || chars_contain_str(&hay, "ParseError")
            || chars_contain_str(&hay, "IoError");
        !technical
    }

    /// The message for `error` when it came from the named operation.
    pub fn map_operation_error(operation: &str, error: &BotError) -> (text: String)
        ensures
            text@ == map_operation_error_text(operation@, *error),
    {
        if str_eq(operation, "create_license") {
            match error {
                BotError::ValidationError { .. } => Self::map_error(error),
                BotError::DatabaseError { .. } => String::from_str("协议创建失败，请稍后再试"),
                BotError::NotFoundError { .. } => String::from_str("无法创建协议，请检查输入信息"),
                _ => String::from_str("协议创建失败，请稍后再试"),
            }
        } else if str_eq(operation, "update_license") {
            match error {
                BotError::NotFoundError { .. } => String::from_str("找不到要更新的协议"),
                BotError::AuthorizationError { .. } => String::from_str("您没有权限修改此协议"),
                BotError::ValidationError { .. } => Self::map_error(error),
                _ => String::from_str("协议更新失败，请稍后再试"),
            }
        } else if str_eq(operation, "delete_license") {
            match error {
                BotError::NotFoundError { .. } => String::from_str("找不到要删除的协议"),
                BotError::AuthorizationError { .. } => String::from_str("您没有权限删除此协议"),
                _ => String::from_str("协议删除失败，请稍后再试"),
            }
        } else if str_eq(operation, "publish_license") {
            match error {
                BotError::NotFoundError { .. } => String::from_str("找不到要发布的协议"),
                BotError::AuthorizationError { .. } => String::from_str("您没有权限在此频道发布协议"),
                BotError::DiscordError { .. } => String::from_str("Discord消息发送失败，请稍后再试"),
                _ => String::from_str("协议发布失败，请稍后再试"),
            }
        } else if str_eq(operation, "reload_licenses") {
            match error {
                BotError::IoError { .. } => String::from_str("协议文件读取失败，请检查文件是否存在"),
                BotError::SerdeError { .. } => String::from_str("协议文件格式错误，请检查文件格式"),
                BotError::AuthorizationError { .. } => String::from_str("您没有权限重载系统协议"),
                _ => String::from_str("协议重载失败，请稍后再试"),
            }
        } else if str_eq(operation, "backup_notification") {
            match error {
                BotError::ReqwestError { .. } => String::from_str("备份通知发送失败，但协议已正常发布"),
                BotError::TimeoutError { .. } => String::from_str("备份通知发送超时，但协议已正常发布"),
                _ => String::from_str("备份通知发送失败，但协议已正常发布"),
            }
        } else {
            Self::map_error(error)
        }
    }

    /// The advice that goes with `error`, if there is one.
    pub fn get_user_suggestion(error: &BotError) -> (advice: Option<String>)
        ensures
            advice.is_some() == user_suggestion_text(*error).is_some(),
            advice.is_some() ==> advice.unwrap()@ == user_suggestion_text(*error).unwrap(),
    {
        match error {
            BotError::ValidationError { message } => {
                let m = message.as_str();
                if contains(m, "name") || contains(m, "名称") {
                    Some(String::from_str("请确保协议名称不为空且长度在1-50个字符之间"))
                } else if contains(m, "length") || contains(m, "长度") {
                    Some(String::from_str("请检查输入内容的长度是否符合要求"))
                } else if contains(m, "format") || contains(m, "格式") {
                    Some(String::from_str("请检查输入内容的格式是否正确"))
                } else {
                    None
                }
            },
            BotError::RateLimitError { .. } => Some(String::from_str("请等待几秒后再试")),
            BotError::AuthorizationError { .. } => Some(
                String::from_str("请联系管理员获取相应权限"),
            ),
            BotError::ReqwestError { .. } => Some(String::from_str("请检查网络连接，或联系管理员")),
            _ => None,
        }
    }
}

} // verus!
