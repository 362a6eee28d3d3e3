pub mod node_data;
pub mod task_data;

pub use node_data::{NodeActiveStatus, NodeData, NodeStatus, NodeType, TaskDistributeData};
pub use task_data::{copy_tasks, TaskData, TaskStatus, TaskType};
